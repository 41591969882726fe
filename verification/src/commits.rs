//! The commits that a run is timed on: what the tokens of its configuration
//! ask for, and whether they name revisions of the repository.
use crate::catalog::{CatalogView, RevisionCatalog};
use crate::stdx::{debug_format, debug_text};
use crate::text::{
    contains, first_where, is_first, lemma_first_where, opt_text, opt_texts, remove_char,
    starts_with, strip_prefix, texts, without_char,
};
use vstd::prelude::*;
use vstd::string::StringExecFns;

verus! {

/// What a list of tokens asks for.
#[derive(Debug, PartialEq, Eq)]
pub enum CommitSpec {
    /// Every commit of the history.
    All,
    /// Every branch.
    Branches,
    /// Every tag.
    Tags,
    /// The commits of a range.
    Range { since: Option<String>, before: Option<String> },
    /// The listed revisions themselves.
    Explicit,
}

/// The mathematical content of a [`CommitSpec`].
pub enum CommitSpecView {
    All,
    Branches,
    Tags,
    Range { since: Option<Seq<char>>, before: Option<Seq<char>> },
    Explicit,
}

impl View for CommitSpec {
    type V = CommitSpecView;

    open spec fn view(&self) -> CommitSpecView {
        match self {
            CommitSpec::All => CommitSpecView::All,
            CommitSpec::Branches => CommitSpecView::Branches,
            CommitSpec::Tags => CommitSpecView::Tags,
            CommitSpec::Range { since, before } => CommitSpecView::Range {
                since: opt_text(*since),
                before: opt_text(*before),
            },
            CommitSpec::Explicit => CommitSpecView::Explicit,
        }
    }
}

/// What the check of a list of tokens found.
#[derive(Debug, PartialEq, Eq)]
pub enum Commits {
    /// Every token names a revision: the list stands as it is.
    Valid,
    /// Tags were asked for and the repository has none.
    NoTagsFound,
    /// The tokens asked for the listed revisions.
    SpecialCaseAll(Vec<String>),
    /// The listed tokens name no revision.
    SomeInvalid(Vec<String>),
}

/// The mathematical content of a [`Commits`].
pub enum CommitsView {
    Valid,
    NoTagsFound,
    SpecialCaseAll(Seq<Seq<char>>),
    SomeInvalid(Seq<Seq<char>>),
}

impl View for Commits {
    type V = CommitsView;

    open spec fn view(&self) -> CommitsView {
        match self {
            Commits::Valid => CommitsView::Valid,
            Commits::NoTagsFound => CommitsView::NoTagsFound,
            Commits::SpecialCaseAll(v) => CommitsView::SpecialCaseAll(texts(v@)),
            Commits::SomeInvalid(v) => CommitsView::SomeInvalid(texts(v@)),
        }
    }
}

/// Some token begins with `flag`.
pub open spec fn has_prefixed(tokens: Seq<Seq<char>>, flag: Seq<char>) -> bool {
    exists|i: int| 0 <= i < tokens.len() && flag.is_prefix_of(#[trigger] tokens[i])
}

/// The bound that the tokens give for `flag`: what follows `flag=` in the
/// first token that begins with `flag`. There is none where no token begins
/// with `flag`, or where the first that does has no `=` behind it.
pub open spec fn range_bound(tokens: Seq<Seq<char>>, flag: Seq<char>) -> Option<Seq<char>> {
    match first_where(tokens, |t: Seq<char>| flag.is_prefix_of(t)) {
        Some(i) => if flag.push('=').is_prefix_of(tokens[i]) {
            Some(tokens[i].skip(flag.len() as int + 1))
        } else {
            None
        },
        None => None,
    }
}

/// What `tokens` asks for. The special tokens come first, in the order
/// `--all`, `--branches`, `--tags`, then a range; a list without any of
/// them is explicit.
pub open spec fn commit_spec_of(tokens: Seq<Seq<char>>) -> CommitSpecView {
    if tokens.contains("--all"@) {
        CommitSpecView::All
    } else if tokens.contains("--branches"@) {
        CommitSpecView::Branches
    } else if tokens.contains("--tags"@) {
        CommitSpecView::Tags
    } else if has_prefixed(tokens, "--since"@) || has_prefixed(tokens, "--before"@) {
        CommitSpecView::Range {
            since: range_bound(tokens, "--since"@),
            before: range_bound(tokens, "--before"@),
        }
    } else {
        CommitSpecView::Explicit
    }
}

/// The revision range between the two bounds, as the listing of revisions
/// takes it: from the parent of `since` up to `before`, or up to `HEAD`
/// where only `since` is given; with `before` alone, what the parent of
/// `before` reaches. Without any bound there is no range.
pub open spec fn range_of(
    since: Option<Seq<char>>,
    before: Option<Seq<char>>,
) -> Option<Seq<char>> {
    match (since, before) {
        (Some(s), Some(b)) => Some(s + "^.."@ + b),
        (None, Some(b)) => Some(b + "^"@),
        (Some(s), None) => Some(s + "^..HEAD"@),
        (None, None) => None,
    }
}

/// `t` names a branch, a tag, or a commit by its short or full id.
pub open spec fn known(c: CatalogView, t: Seq<char>) -> bool {
    c.branches.contains(t) || c.tags.contains(t) || c.abbrev_ids.contains(t)
        || c.commit_ids.contains(t)
}

/// The tokens that name no revision, in their order.
pub open spec fn unknown_tokens(tokens: Seq<Seq<char>>, c: CatalogView) -> Seq<Seq<char>> {
    tokens.filter(|t: Seq<char>| !known(c, t))
}

/// The listing of tags shows no tag: it is empty, or begins with an empty
/// name.
pub open spec fn no_tags(tags: Seq<Seq<char>>) -> bool {
    tags.len() == 0 || tags[0].len() == 0
}

/// What the check of `tokens` against the catalog finds.
pub open spec fn checked(tokens: Seq<Seq<char>>, c: CatalogView) -> CommitsView {
    match commit_spec_of(tokens) {
        CommitSpecView::All => CommitsView::SpecialCaseAll(c.abbrev_ids),
        CommitSpecView::Branches => CommitsView::SpecialCaseAll(c.branches),
        CommitSpecView::Tags => if no_tags(c.tags) {
            CommitsView::NoTagsFound
        } else {
            CommitsView::SpecialCaseAll(c.tags)
        },
        CommitSpecView::Range { .. } => CommitsView::SpecialCaseAll(c.range),
        CommitSpecView::Explicit => if unknown_tokens(tokens, c).len() == 0 {
            CommitsView::Valid
        } else {
            CommitsView::SomeInvalid(unknown_tokens(tokens, c))
        },
    }
}

/// Whether some token begins with `flag`, and the first that does.
fn first_prefixed(tokens: &[String], flag: &str) -> (found: Option<usize>)
    ensures
        found is Some <==> has_prefixed(texts(tokens@), flag@),
        match found {
            Some(i) => i < tokens.len() && is_first(
                texts(tokens@),
                |t: Seq<char>| flag@.is_prefix_of(t),
                i as int,
            ),
            None => true,
        },
{
    let mut i: usize = 0;
    while i < tokens.len()
        invariant
            i <= tokens.len(),
            forall|j: int| 0 <= j < i ==> !flag@.is_prefix_of(#[trigger] texts(tokens@)[j]),
        decreases tokens.len() - i,
    {
        if starts_with(tokens[i].as_str(), flag) {
            assert(flag@.is_prefix_of(texts(tokens@)[i as int]));
            return Some(i);
        }
        i += 1;
    }
    None
}

/// The bound that the tokens give for `flag`.
fn bound_of(tokens: &[String], flag: &str) -> (bound: Option<String>)
    ensures
        opt_text(bound) == range_bound(texts(tokens@), flag@),
{
    match first_prefixed(tokens, flag) {
        Some(i) => {
            let mut assigned = flag.to_string();
            assigned.push('=');
            let rest = strip_prefix(tokens[i].as_str(), assigned.as_str());
            rest
        },
        None => None,
    }
}

/// Reads what the tokens ask for.
pub fn commit_spec(tokens: &[String]) -> (spec: CommitSpec)
    ensures
        spec@ == commit_spec_of(texts(tokens@)),
{
    if contains(tokens, &"--all".to_string()) {
        CommitSpec::All
    } else if contains(tokens, &"--branches".to_string()) {
        CommitSpec::Branches
    } else if contains(tokens, &"--tags".to_string()) {
        CommitSpec::Tags
    } else if first_prefixed(tokens, "--since").is_some() || first_prefixed(
        tokens,
        "--before",
    ).is_some() {
        let since = bound_of(tokens, "--since");
        let before = bound_of(tokens, "--before");
        CommitSpec::Range { since, before }
    } else {
        CommitSpec::Explicit
    }
}

/// Writes the revision range between the two bounds.
pub fn range_argument(since: Option<&str>, before: Option<&str>) -> (arg: Option<String>)
    ensures
        opt_text(arg) == range_of(
            match since {
                Some(s) => Some(s@),
                None => None,
            },
            match before {
                Some(b) => Some(b@),
                None => None,
            },
        ),
{
    match (since, before) {
        (Some(s), Some(b)) => {
            let mut arg = s.to_string();
            arg.append("^..");
            arg.append(b);
            Some(arg)
        },
        (None, Some(b)) => {
            let mut arg = b.to_string();
            arg.append("^");
            Some(arg)
        },
        (Some(s), None) => {
            let mut arg = s.to_string();
            arg.append("^..HEAD");
            Some(arg)
        },
        (None, None) => None,
    }
}

/// Whether `t` names a revision of the catalog.
fn is_known(catalog: &RevisionCatalog, t: &String) -> (yes: bool)
    ensures
        yes == known(catalog@, t@),
{
    contains(&catalog.branches, t) || contains(&catalog.tags, t) || contains(
        &catalog.abbrev_ids,
        t,
    ) || contains(&catalog.commit_ids, t)
}

/// Checks that every token names a revision. Returns whether all do, and
/// the tokens that do not, in their order.
pub fn check_validity_of_commit_ids(
    vec: &[String],
    catalog: &RevisionCatalog,
) -> (out: (bool, Vec<String>))
    ensures
        texts(out.1@) == unknown_tokens(texts(vec@), catalog@),
        out.0 == (out.1@.len() == 0),
{
    let mut not_found: Vec<String> = Vec::new();
    let mut i: usize = 0;
    while i < vec.len()
        invariant
            i <= vec.len(),
            texts(not_found@) == unknown_tokens(texts(vec@).take(i as int), catalog@),
        decreases vec.len() - i,
    {
        proof {
            reveal(Seq::filter);
            let now = texts(vec@).take(i + 1);
            assert(now.drop_last() =~= texts(vec@).take(i as int));
        }
        if !is_known(catalog, &vec[i]) {
            not_found.push(vec[i].clone());
        }
        i += 1;
    }
    assert(texts(vec@).take(vec@.len() as int) =~= texts(vec@));
    let is_ok = not_found.len() == 0;
    (is_ok, not_found)
}

/// Checks a list of tokens against the catalog: resolves what a special
/// token asks for, and otherwise checks that every token names a revision.
pub fn check_correctness_of_commit_ids(vec: &[String], catalog: &RevisionCatalog) -> (out: Commits)
    ensures
        out@ == checked(texts(vec@), catalog@),
{
    match commit_spec(vec) {
        CommitSpec::All => Commits::SpecialCaseAll(catalog.abbrev_ids.clone()),
        CommitSpec::Branches => Commits::SpecialCaseAll(catalog.branches.clone()),
        CommitSpec::Tags => {
            if catalog.tags.len() == 0 || catalog.tags[0].as_str().is_empty() {
                Commits::NoTagsFound
            } else {
                Commits::SpecialCaseAll(catalog.tags.clone())
            }
        },
        CommitSpec::Range { since, before } => Commits::SpecialCaseAll(catalog.range.clone()),
        CommitSpec::Explicit => {
            let (is_ok, not_found) = check_validity_of_commit_ids(vec, catalog);
            if is_ok {
                Commits::Valid
            } else {
                Commits::SomeInvalid(not_found)
            }
        },
    }
}

/// Why a list of tokens gives no commits.
#[derive(Debug, PartialEq, Eq)]
pub enum CommitError {
    /// The listed tokens name no revision.
    SomeInvalid(Vec<String>),
    /// Tags were asked for and the repository has none.
    NoTagsFound,
}

/// The mathematical content of a [`CommitError`].
pub enum CommitErrorView {
    SomeInvalid(Seq<Seq<char>>),
    NoTagsFound,
}

impl View for CommitError {
    type V = CommitErrorView;

    open spec fn view(&self) -> CommitErrorView {
        match self {
            CommitError::SomeInvalid(v) => CommitErrorView::SomeInvalid(texts(v@)),
            CommitError::NoTagsFound => CommitErrorView::NoTagsFound,
        }
    }
}

/// The text of an error: the tokens that were not found, written as a list
/// without quotation marks, or the notice that there are no tags.
pub open spec fn error_text(e: CommitErrorView) -> Seq<char> {
    match e {
        CommitErrorView::SomeInvalid(v) => "Following commits not found: "@ + without_char(
            debug_text(v),
            '"',
        ),
        CommitErrorView::NoTagsFound => "No tags found in repository"@,
    }
}

impl CommitError {
    /// The text that tells the user of this error.
    pub fn message(&self) -> (msg: String)
        ensures
            msg@ == error_text(self@),
    {
        match self {
            CommitError::SomeInvalid(v) => {
                let listed = debug_format(v.as_slice());
                let mut msg = "Following commits not found: ".to_string();
                msg.append(remove_char(listed.as_str(), '"').as_str());
                msg
            },
            CommitError::NoTagsFound => "No tags found in repository".to_string(),
        }
    }
}

/// The commits that a run is timed on, for the tokens of its configuration:
/// none where no tokens are given; the tokens themselves where all of them
/// name revisions; the revisions that a special token asks for; or the
/// error.
pub open spec fn resolved(
    tokens: Option<Seq<Seq<char>>>,
    c: CatalogView,
) -> Result<Option<Seq<Seq<char>>>, CommitErrorView> {
    match tokens {
        None => Ok(None),
        Some(t) => match checked(t, c) {
            CommitsView::Valid => Ok(Some(t)),
            CommitsView::SpecialCaseAll(v) => Ok(Some(v)),
            CommitsView::SomeInvalid(v) => Err(CommitErrorView::SomeInvalid(v)),
            CommitsView::NoTagsFound => Err(CommitErrorView::NoTagsFound),
        },
    }
}

/// What a result of [`from_commit`] holds.
pub open spec fn resolution_view(
    r: Result<Option<Vec<String>>, CommitError>,
) -> Result<Option<Seq<Seq<char>>>, CommitErrorView> {
    match r {
        Ok(v) => Ok(opt_texts(v)),
        Err(e) => Err(e@),
    }
}

/// Resolves the tokens of a run's configuration to the commits that it is
/// timed on.
pub fn from_commit(
    s: Option<Vec<String>>,
    catalog: &RevisionCatalog,
) -> (out: Result<Option<Vec<String>>, CommitError>)
    ensures
        resolution_view(out) == resolved(opt_texts(s), catalog@),
{
    match s {
        Some(vec) => match check_correctness_of_commit_ids(vec.as_slice(), catalog) {
            Commits::Valid => Ok(Some(vec)),
            Commits::SpecialCaseAll(all) => Ok(Some(all)),
            Commits::SomeInvalid(missing) => Err(CommitError::SomeInvalid(missing)),
            Commits::NoTagsFound => Err(CommitError::NoTagsFound),
        },
        None => Ok(None),
    }
}

/// The unknown tokens are the tokens that the catalog does not know, no
/// more and no fewer.
proof fn lemma_unknown_tokens(tokens: Seq<Seq<char>>, c: CatalogView)
    ensures
        forall|t: Seq<char>| #[trigger]
            unknown_tokens(tokens, c).contains(t) <==> tokens.contains(t) && !known(c, t),
    decreases tokens.len(),
{
    reveal(Seq::filter);
    let out = unknown_tokens(tokens, c);
    if tokens.len() > 0 {
        let rest = tokens.drop_last();
        let last = tokens.last();
        lemma_unknown_tokens(rest, c);
        let head = unknown_tokens(rest, c);
        assert forall|t: Seq<char>| #[trigger] out.contains(t) <==> tokens.contains(t) && !known(
            c,
            t,
        ) by {
            if out.contains(t) {
                let i = choose|i: int| 0 <= i < out.len() && out[i] == t;
                if !known(c, last) && i == out.len() - 1 {
                    assert(tokens[tokens.len() - 1] == t);
                } else {
                    assert(head[i] == t);
                    assert(head.contains(t));
                    let j = choose|j: int| 0 <= j < rest.len() && rest[j] == t;
                    assert(tokens[j] == t);
                }
            }
            if tokens.contains(t) && !known(c, t) {
                let j = choose|j: int| 0 <= j < tokens.len() && tokens[j] == t;
                if j == tokens.len() - 1 {
                    assert(out[out.len() - 1] == t);
                } else {
                    assert(rest[j] == t);
                    assert(rest.contains(t));
                    assert(unknown_tokens(rest, c).contains(t));
                    let i = choose|i: int| 0 <= i < head.len() && head[i] == t;
                    assert(out[i] == t);
                }
            }
        }
    }
}

/// An explicit list in which every token names a branch, a tag or a commit
/// is resolved to itself: the same tokens in the same order.
pub proof fn law_known_tokens_stand(tokens: Seq<Seq<char>>, c: CatalogView)
    requires
        commit_spec_of(tokens) is Explicit,
        forall|i: int| 0 <= i < tokens.len() ==> known(c, #[trigger] tokens[i]),
    ensures
        resolved(Some(tokens), c) == Ok::<Option<Seq<Seq<char>>>, CommitErrorView>(Some(tokens)),
{
    lemma_unknown_tokens(tokens, c);
    let out = unknown_tokens(tokens, c);
    if out.len() > 0 {
        assert(out.contains(out[0]));
        let j = choose|j: int| 0 <= j < tokens.len() && tokens[j] == out[0];
        assert(known(c, tokens[j]));
    }
}

/// An explicit list with a token that names nothing is refused, and the
/// tokens reported are those that name nothing: each of them, and no other.
pub proof fn law_unknown_tokens_reported(tokens: Seq<Seq<char>>, c: CatalogView)
    requires
        commit_spec_of(tokens) is Explicit,
        exists|i: int| 0 <= i < tokens.len() && !known(c, #[trigger] tokens[i]),
    ensures
        resolved(Some(tokens), c) == Err::<Option<Seq<Seq<char>>>, CommitErrorView>(
            CommitErrorView::SomeInvalid(unknown_tokens(tokens, c)),
        ),
        forall|t: Seq<char>| #[trigger]
            unknown_tokens(tokens, c).contains(t) <==> tokens.contains(t) && !known(c, t),
{
    lemma_unknown_tokens(tokens, c);
    let i = choose|i: int| 0 <= i < tokens.len() && !known(c, #[trigger] tokens[i]);
    assert(tokens.contains(tokens[i]));
    assert(unknown_tokens(tokens, c).contains(tokens[i]));
}

/// A request for the tags fails where the repository has none, and gives
/// exactly the tags where it has some.
pub proof fn law_tags(tokens: Seq<Seq<char>>, c: CatalogView)
    requires
        commit_spec_of(tokens) is Tags,
    ensures
        no_tags(c.tags) ==> resolved(Some(tokens), c) == Err::<
            Option<Seq<Seq<char>>>,
            CommitErrorView,
        >(CommitErrorView::NoTagsFound),
        !no_tags(c.tags) ==> resolved(Some(tokens), c) == Ok::<
            Option<Seq<Seq<char>>>,
            CommitErrorView,
        >(Some(c.tags)),
{
}

/// A special token is never read as the name of a revision: where `--all`
/// stands among the tokens, all commits are the answer, whatever else the
/// tokens hold and whatever the repository knows by that name; likewise
/// `--branches`, where `--all` is missing.
pub proof fn law_special_tokens_first(tokens: Seq<Seq<char>>, c: CatalogView)
    ensures
        tokens.contains("--all"@) ==> checked(tokens, c) == CommitsView::SpecialCaseAll(
            c.abbrev_ids,
        ),
        !tokens.contains("--all"@) && tokens.contains("--branches"@) ==> checked(tokens, c)
            == CommitsView::SpecialCaseAll(c.branches),
        commit_spec_of(tokens) is Explicit ==> !tokens.contains("--all"@) && !tokens.contains(
            "--branches"@,
        ) && !tokens.contains("--tags"@),
{
}

} // verus!
