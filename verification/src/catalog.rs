//! What the repository holds, and the questions to the version control
//! system that tell it. The questions are asked elsewhere: this module
//! writes their arguments and reads their answers.
use crate::commits::{
    checked, commit_spec, commit_spec_of, known, range_argument, range_of, unknown_tokens,
    CommitSpec, CommitSpecView,
};
use crate::stdx::str_from_utf8;
use crate::text::{
    chars_of, opt_text, split, split_at_char, string_of, texts, to_string, trim_newline,
    without_newline,
};
use vstd::prelude::*;
use vstd::utf8::{decode_utf8, valid_utf8};

verus! {

/// What the repository holds, as far as the resolution of commits reads
/// it. `range` lists the revisions of the range that the tokens ask for.
#[derive(Debug, PartialEq, Eq)]
pub struct RevisionCatalog {
    pub branches: Vec<String>,
    pub tags: Vec<String>,
    pub abbrev_ids: Vec<String>,
    pub commit_ids: Vec<String>,
    pub range: Vec<String>,
}

/// The mathematical content of a [`RevisionCatalog`].
pub struct CatalogView {
    pub branches: Seq<Seq<char>>,
    pub tags: Seq<Seq<char>>,
    pub abbrev_ids: Seq<Seq<char>>,
    pub commit_ids: Seq<Seq<char>>,
    pub range: Seq<Seq<char>>,
}

impl View for RevisionCatalog {
    type V = CatalogView;

    open spec fn view(&self) -> CatalogView {
        CatalogView {
            branches: texts(self.branches@),
            tags: texts(self.tags@),
            abbrev_ids: texts(self.abbrev_ids@),
            commit_ids: texts(self.commit_ids@),
            range: texts(self.range@),
        }
    }
}

/// A question to the version control system.
#[derive(Debug, PartialEq, Eq)]
pub enum Query {
    /// All branches, local and remote.
    Branches,
    /// All tags.
    Tags,
    /// The ids of all commits.
    CommitIds,
    /// The abbreviated ids of all commits.
    AbbrevIds,
    /// The abbreviated ids of the commits of a range.
    Range { since: Option<String>, before: Option<String> },
    /// The branch that is checked out; `HEAD` where none is.
    CurrentBranch,
    /// The id of the commit that is checked out.
    CurrentCommit,
    /// Whether the working tree differs from what is checked out.
    Dirty,
    /// The request to check out a revision.
    Checkout(String),
}

/// The mathematical content of a [`Query`].
pub enum QueryView {
    Branches,
    Tags,
    CommitIds,
    AbbrevIds,
    Range { since: Option<Seq<char>>, before: Option<Seq<char>> },
    CurrentBranch,
    CurrentCommit,
    Dirty,
    Checkout(Seq<char>),
}

impl View for Query {
    type V = QueryView;

    open spec fn view(&self) -> QueryView {
        match self {
            Query::Branches => QueryView::Branches,
            Query::Tags => QueryView::Tags,
            Query::CommitIds => QueryView::CommitIds,
            Query::AbbrevIds => QueryView::AbbrevIds,
            Query::Range { since, before } => QueryView::Range {
                since: opt_text(*since),
                before: opt_text(*before),
            },
            Query::CurrentBranch => QueryView::CurrentBranch,
            Query::CurrentCommit => QueryView::CurrentCommit,
            Query::Dirty => QueryView::Dirty,
            Query::Checkout(revision) => QueryView::Checkout(revision@),
        }
    }
}

/// The arguments with which the version control system is asked. A range
/// without any bound has none.
pub open spec fn query_arguments(q: QueryView) -> Option<Seq<Seq<char>>> {
    match q {
        QueryView::Branches => Some(seq!["branch"@, "--all"@]),
        QueryView::Tags => Some(seq!["tag"@, "--list"@]),
        QueryView::CommitIds => Some(seq!["rev-list"@, "--all"@]),
        QueryView::AbbrevIds => Some(seq!["rev-list"@, "--all"@, "--abbrev-commit"@]),
        QueryView::Range { since, before } => match range_of(since, before) {
            Some(range) => Some(seq!["rev-list"@, range, "--abbrev-commit"@]),
            None => None,
        },
        QueryView::CurrentBranch => Some(seq!["rev-parse"@, "--abbrev-ref"@, "HEAD"@]),
        QueryView::CurrentCommit => Some(seq!["rev-parse"@, "HEAD"@]),
        QueryView::Dirty => Some(seq!["diff"@, "--quiet"@]),
        QueryView::Checkout(revision) => Some(seq!["checkout"@, revision, "--quiet"@]),
    }
}

/// The queries whose answers the resolution of `tokens` reads.
pub open spec fn queries_of(tokens: Seq<Seq<char>>) -> Seq<QueryView> {
    match commit_spec_of(tokens) {
        CommitSpecView::All => seq![QueryView::AbbrevIds],
        CommitSpecView::Branches => seq![QueryView::Branches],
        CommitSpecView::Tags => seq![QueryView::Tags],
        CommitSpecView::Range { since, before } => seq![QueryView::Range { since, before }],
        CommitSpecView::Explicit => seq![
            QueryView::Branches,
            QueryView::Tags,
            QueryView::AbbrevIds,
            QueryView::CommitIds,
        ],
    }
}

/// The lines of an answer: the text without the line end at its end, cut at
/// every line end that is left.
pub open spec fn lines_of(answer: Seq<char>) -> Seq<Seq<char>> {
    split(without_newline(answer), '\n')
}

/// The names in a listing of branches: each line without the two
/// characters of the mark in front of it. There are none where a line is
/// shorter than the mark.
pub open spec fn branch_names(lines: Seq<Seq<char>>) -> Option<Seq<Seq<char>>> {
    if forall|i: int| 0 <= i < lines.len() ==> (#[trigger] lines[i]).len() >= 2 {
        Some(lines.map_values(|line: Seq<char>| line.skip(2)))
    } else {
        None
    }
}

/// The query asks for a listing of revisions.
pub open spec fn is_listing(q: QueryView) -> bool {
    q is Branches || q is Tags || q is CommitIds || q is AbbrevIds || q is Range
}

/// The revisions that an answer to a listing query names.
pub open spec fn listed(q: QueryView, answer: Seq<char>) -> Option<Seq<Seq<char>>> {
    match q {
        QueryView::Branches => branch_names(lines_of(answer)),
        QueryView::Tags | QueryView::CommitIds | QueryView::AbbrevIds | QueryView::Range {
            ..
        } => Some(lines_of(answer)),
        _ => None,
    }
}

/// The catalog with the revisions `found` for the query `q` in their
/// place.
pub open spec fn recorded(c: CatalogView, q: QueryView, found: Seq<Seq<char>>) -> CatalogView {
    match q {
        QueryView::Branches => CatalogView { branches: found, ..c },
        QueryView::Tags => CatalogView { tags: found, ..c },
        QueryView::CommitIds => CatalogView { commit_ids: found, ..c },
        QueryView::AbbrevIds => CatalogView { abbrev_ids: found, ..c },
        QueryView::Range { .. } => CatalogView { range: found, ..c },
        _ => c,
    }
}

/// The listing that a catalog holds for a query.
pub open spec fn listing_for(c: CatalogView, q: QueryView) -> Seq<Seq<char>> {
    match q {
        QueryView::Branches => c.branches,
        QueryView::Tags => c.tags,
        QueryView::CommitIds => c.commit_ids,
        QueryView::AbbrevIds => c.abbrev_ids,
        QueryView::Range { .. } => c.range,
        _ => Seq::empty(),
    }
}

/// What is recorded for a listing query is what the catalog then holds for
/// it; a query that lists nothing leaves the catalog as it is.
pub proof fn law_recorded_is_held(c: CatalogView, q: QueryView, found: Seq<Seq<char>>)
    ensures
        is_listing(q) ==> listing_for(recorded(c, q, found), q) == found,
        !is_listing(q) ==> recorded(c, q, found) == c,
{
}

/// Two catalogs that know the same revisions leave the same tokens unknown.
proof fn lemma_unknown_alike(tokens: Seq<Seq<char>>, a: CatalogView, b: CatalogView)
    requires
        forall|t: Seq<char>| known(a, t) == known(b, t),
    ensures
        unknown_tokens(tokens, a) == unknown_tokens(tokens, b),
    decreases tokens.len(),
{
    reveal(Seq::filter);
    if tokens.len() > 0 {
        lemma_unknown_alike(tokens.drop_last(), a, b);
    }
}

/// The resolution of tokens reads nothing but the answers to its queries:
/// two catalogs that hold the same listings for the queries of `tokens`
/// give the same result.
pub proof fn law_resolution_reads_its_queries(
    tokens: Seq<Seq<char>>,
    a: CatalogView,
    b: CatalogView,
)
    requires
        forall|i: int|
            0 <= i < queries_of(tokens).len() ==> listing_for(a, #[trigger] queries_of(tokens)[i])
                == listing_for(b, queries_of(tokens)[i]),
    ensures
        checked(tokens, a) == checked(tokens, b),
{
    let queries = queries_of(tokens);
    assert(listing_for(a, queries[0]) == listing_for(b, queries[0]));
    if commit_spec_of(tokens) is Explicit {
        assert(listing_for(a, queries[1]) == listing_for(b, queries[1]));
        assert(listing_for(a, queries[2]) == listing_for(b, queries[2]));
        assert(listing_for(a, queries[3]) == listing_for(b, queries[3]));
        lemma_unknown_alike(tokens, a, b);
    }
}

impl Query {
    /// The arguments with which to ask the version control system.
    pub fn arguments(&self) -> (args: Option<Vec<String>>)
        ensures
            match args {
                Some(a) => query_arguments(self@) == Some(texts(a@)),
                None => query_arguments(self@) is None,
            },
    {
        let mut args: Vec<String> = Vec::new();
        match self {
            Query::Branches => {
                args.push("branch".to_string());
                args.push("--all".to_string());
            },
            Query::Tags => {
                args.push("tag".to_string());
                args.push("--list".to_string());
            },
            Query::CommitIds => {
                args.push("rev-list".to_string());
                args.push("--all".to_string());
            },
            Query::AbbrevIds => {
                args.push("rev-list".to_string());
                args.push("--all".to_string());
                args.push("--abbrev-commit".to_string());
            },
            Query::Range { since, before } => {
                let since = match since {
                    Some(s) => Some(s.as_str()),
                    None => None,
                };
                let before = match before {
                    Some(b) => Some(b.as_str()),
                    None => None,
                };
                match range_argument(since, before) {
                    Some(range) => {
                        args.push("rev-list".to_string());
                        args.push(range);
                        args.push("--abbrev-commit".to_string());
                    },
                    None => {
                        return None;
                    },
                }
            },
            Query::CurrentBranch => {
                args.push("rev-parse".to_string());
                args.push("--abbrev-ref".to_string());
                args.push("HEAD".to_string());
            },
            Query::CurrentCommit => {
                args.push("rev-parse".to_string());
                args.push("HEAD".to_string());
            },
            Query::Dirty => {
                args.push("diff".to_string());
                args.push("--quiet".to_string());
            },
            Query::Checkout(revision) => {
                args.push("checkout".to_string());
                args.push(revision.clone());
                args.push("--quiet".to_string());
            },
        }
        Some(args)
    }
}

/// The queries whose answers the resolution of `tokens` reads.
pub fn queries_for(tokens: &[String]) -> (queries: Vec<Query>)
    ensures
        queries@.map_values(|q: Query| q@) == queries_of(texts(tokens@)),
{
    let mut queries: Vec<Query> = Vec::new();
    match commit_spec(tokens) {
        CommitSpec::All => {
            queries.push(Query::AbbrevIds);
        },
        CommitSpec::Branches => {
            queries.push(Query::Branches);
        },
        CommitSpec::Tags => {
            queries.push(Query::Tags);
        },
        CommitSpec::Range { since, before } => {
            queries.push(Query::Range { since, before });
        },
        CommitSpec::Explicit => {
            queries.push(Query::Branches);
            queries.push(Query::Tags);
            queries.push(Query::AbbrevIds);
            queries.push(Query::CommitIds);
        },
    }
    queries
}

/// The lines of an answer of the version control system.
pub fn lines(answer: &str) -> (out: Vec<String>)
    ensures
        texts(out@) == lines_of(answer@),
{
    let mut text = answer.to_string();
    trim_newline(&mut text);
    split_at_char(text.as_str(), '\n')
}

/// The names in a listing of branches.
pub fn strip_marks(lines: &[String]) -> (out: Option<Vec<String>>)
    ensures
        match out {
            Some(names) => branch_names(texts(lines@)) == Some(texts(names@)),
            None => branch_names(texts(lines@)) is None,
        },
{
    let mut names: Vec<String> = Vec::new();
    let mut i: usize = 0;
    while i < lines.len()
        invariant
            i <= lines.len(),
            names.len() == i,
            forall|j: int| 0 <= j < i ==> (#[trigger] texts(lines@)[j]).len() >= 2,
            forall|j: int| 0 <= j < i ==> (#[trigger] texts(names@)[j]) == texts(lines@)[j].skip(2),
        decreases lines.len() - i,
    {
        let line = chars_of(lines[i].as_str());
        if line.len() < 2 {
            assert(texts(lines@)[i as int].len() < 2);
            return None;
        }
        let ghost before = texts(names@);
        names.push(string_of(&line, 2, line.len()));
        assert(texts(names@) =~= before.push(line@.skip(2)));
        i += 1;
    }
    Some(names)
}

impl RevisionCatalog {
    /// A catalog in which nothing is recorded.
    pub fn new() -> (c: RevisionCatalog)
        ensures
            c@ == (CatalogView {
                branches: Seq::empty(),
                tags: Seq::empty(),
                abbrev_ids: Seq::empty(),
                commit_ids: Seq::empty(),
                range: Seq::empty(),
            }),
    {
        let c = RevisionCatalog {
            branches: Vec::new(),
            tags: Vec::new(),
            abbrev_ids: Vec::new(),
            commit_ids: Vec::new(),
            range: Vec::new(),
        };
        assert(c@.branches =~= Seq::empty());
        assert(c@.tags =~= Seq::empty());
        assert(c@.abbrev_ids =~= Seq::empty());
        assert(c@.commit_ids =~= Seq::empty());
        assert(c@.range =~= Seq::empty());
        c
    }

    /// Records the answer of the version control system to a listing
    /// query. Returns whether it did: not for bytes that are no UTF-8, for
    /// a listing of branches with a line shorter than its mark, or for a
    /// query that lists nothing. Then the catalog stays as it is.
    pub fn record(&mut self, query: &Query, answer: Vec<u8>) -> (done: bool)
        ensures
            done == (valid_utf8(answer@) && listed(query@, decode_utf8(answer@)) is Some),
            done ==> final(self)@ == recorded(
                old(self)@,
                query@,
                listed(query@, decode_utf8(answer@))->0,
            ),
            !done ==> final(self)@ == old(self)@,
    {
        let text = match str_from_utf8(answer.as_slice()) {
            Some(t) => t,
            None => {
                return false;
            },
        };
        let found = lines(text);
        match query {
            Query::Branches => match strip_marks(found.as_slice()) {
                Some(names) => {
                    self.branches = names;
                    true
                },
                None => false,
            },
            Query::Tags => {
                self.tags = found;
                true
            },
            Query::CommitIds => {
                self.commit_ids = found;
                true
            },
            Query::AbbrevIds => {
                self.abbrev_ids = found;
                true
            },
            Query::Range { .. } => {
                self.range = found;
                true
            },
            _ => false,
        }
    }
}

/// What is checked out, as far as the answers given tell.
#[derive(Debug, PartialEq, Eq)]
pub enum Head {
    /// This branch, or this commit where no branch is checked out.
    Found(String),
    /// No branch is checked out, and the commit has not been asked for.
    Detached,
    /// An answer is no UTF-8.
    Unreadable,
}

/// The mathematical content of a [`Head`].
pub enum HeadView {
    Found(Seq<char>),
    Detached,
    Unreadable,
}

impl View for Head {
    type V = HeadView;

    open spec fn view(&self) -> HeadView {
        match self {
            Head::Found(name) => HeadView::Found(name@),
            Head::Detached => HeadView::Detached,
            Head::Unreadable => HeadView::Unreadable,
        }
    }
}

/// The name that an answer gives: the text without the line ends at its
/// end, up to two of them.
pub open spec fn name_in(answer: Seq<char>) -> Seq<char> {
    without_newline(without_newline(answer))
}

/// What is checked out, given the answer to the question for the branch
/// and, where it is there, the answer to the question for the commit. The
/// branch `HEAD` stands for no branch: then the commit is what is checked
/// out.
pub open spec fn head_of(branch: Seq<u8>, commit: Option<Seq<u8>>) -> HeadView {
    if !valid_utf8(branch) {
        HeadView::Unreadable
    } else if name_in(decode_utf8(branch)) != "HEAD"@ {
        HeadView::Found(name_in(decode_utf8(branch)))
    } else {
        match commit {
            None => HeadView::Detached,
            Some(c) => if valid_utf8(c) {
                HeadView::Found(name_in(decode_utf8(c)))
            } else {
                HeadView::Unreadable
            },
        }
    }
}

/// The name that an answer gives, where the answer is UTF-8.
fn name_of(answer: Vec<u8>) -> (name: Option<String>)
    ensures
        name is Some <==> valid_utf8(answer@),
        name is Some ==> name->0@ == name_in(decode_utf8(answer@)),
{
    match to_string(answer) {
        Some(mut name) => {
            trim_newline(&mut name);
            Some(name)
        },
        None => None,
    }
}

/// Reads what is checked out from the answers of the version control
/// system: `branch` answers [`Query::CurrentBranch`], and `commit`, where
/// it has been asked for, answers [`Query::CurrentCommit`].
pub fn get_current_branch_or_id(branch: Vec<u8>, commit: Option<Vec<u8>>) -> (head: Head)
    ensures
        head@ == head_of(
            branch@,
            match commit {
                Some(c) => Some(c@),
                None => None,
            },
        ),
{
    let br = match name_of(branch) {
        Some(name) => name,
        None => {
            return Head::Unreadable;
        },
    };
    if br == "HEAD".to_string() {
        match commit {
            Some(c) => match name_of(c) {
                Some(id) => Head::Found(id),
                None => Head::Unreadable,
            },
            None => Head::Detached,
        }
    } else {
        Head::Found(br)
    }
}

/// The request that brings the working tree to `commit`, where `current`
/// is checked out: none where that is `commit` already.
pub fn checkout(current: &String, commit: String) -> (request: Option<Query>)
    ensures
        match request {
            Some(q) => current@ != commit@ && q@ == QueryView::Checkout(commit@),
            None => current@ == commit@,
        },
{
    if *current != commit {
        Some(Query::Checkout(commit))
    } else {
        None
    }
}

} // verus!
