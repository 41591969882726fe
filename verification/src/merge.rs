//! The merge of the reports of several runs into one report.
use crate::json::{
    items_of, json_of, json_parse, json_pretty, jsons, list_value, member, member_of, parse,
    pretty, set_member, text_of, text_value, Json,
};
use crate::text::{opt_text, texts};
use serde_json::Value;
use vstd::prelude::*;
use vstd::string::StringExecFns;

verus! {

/// Why the reports cannot be merged. The number is the place of the
/// report at fault among those given, counted from zero.
#[derive(Clone, Copy, Debug, PartialEq, Eq, Structural)]
pub enum MergeError {
    /// No report was given.
    NoInput,
    /// The report is not JSON.
    NotJson(usize),
    /// The report has no array of results.
    NoResults(usize),
    /// A result of the report names a commit that is no string, or names
    /// one and has no string as its command.
    BadEntry(usize),
}

/// What is wrong with one report.
#[derive(Clone, Copy, Debug, PartialEq, Eq, Structural)]
pub enum Flaw {
    /// It is not JSON.
    NotJson,
    /// It has no array of results.
    NoResults,
    /// A result names a commit that is no string, or names one and has no
    /// string as its command.
    BadEntry,
}

/// The flaw of the report at place `file`, as an error of the merge.
pub open spec fn flaw_at(file: int, flaw: Flaw) -> MergeError {
    match flaw {
        Flaw::NotJson => MergeError::NotJson(file as usize),
        Flaw::NoResults => MergeError::NoResults(file as usize),
        Flaw::BadEntry => MergeError::BadEntry(file as usize),
    }
}

/// The results of a report: the array under `results`.
pub open spec fn results_of(doc: Json) -> Option<Seq<Json>> {
    match member_of(doc, "results"@) {
        Some(Json::List(items)) => Some(items),
        _ => None,
    }
}

/// The commit that a result was measured on: the parameter `commit`.
pub open spec fn commit_of(entry: Json) -> Option<Json> {
    match member_of(entry, "parameters"@) {
        Some(parameters) => member_of(parameters, "commit"@),
        None => None,
    }
}

/// The name of a command on a commit.
pub open spec fn qualified(command: Seq<char>, commit: Seq<char>) -> Seq<char> {
    command + "@"@ + commit
}

/// What stands under a key of a result, as far as the merge reads it.
#[derive(Debug, PartialEq, Eq)]
pub enum Field {
    /// Nothing.
    Missing,
    /// A string.
    Text(String),
    /// A value that is no string.
    Other,
}

/// The mathematical content of a [`Field`].
pub enum FieldView {
    Missing,
    Text(Seq<char>),
    Other,
}

impl View for Field {
    type V = FieldView;

    open spec fn view(&self) -> FieldView {
        match self {
            Field::Missing => FieldView::Missing,
            Field::Text(s) => FieldView::Text(s@),
            Field::Other => FieldView::Other,
        }
    }
}

/// What becomes of the name of a result's command.
#[derive(Debug, PartialEq, Eq)]
pub enum Renaming {
    /// It stays.
    Keep,
    /// It becomes the name given.
    Rename(String),
    /// The result cannot be named.
    Refuse,
}

/// The mathematical content of a [`Renaming`].
pub enum RenamingView {
    Keep,
    Rename(Seq<char>),
    Refuse,
}

impl View for Renaming {
    type V = RenamingView;

    open spec fn view(&self) -> RenamingView {
        match self {
            Renaming::Keep => RenamingView::Keep,
            Renaming::Rename(s) => RenamingView::Rename(s@),
            Renaming::Refuse => RenamingView::Refuse,
        }
    }
}

/// What is read of an optional value.
pub open spec fn field_of(j: Option<Json>) -> FieldView {
    match j {
        None => FieldView::Missing,
        Some(Json::Text(s)) => FieldView::Text(s),
        Some(_) => FieldView::Other,
    }
}

/// What becomes of the name of a command, given the commit of its result
/// and the name: without a commit it stays; with one, the commit is
/// written behind it; a commit that is no string, or a commit for a
/// command without a name, is refused.
pub open spec fn renaming_of(commit: FieldView, command: FieldView) -> RenamingView {
    match commit {
        FieldView::Missing => RenamingView::Keep,
        FieldView::Text(c) => match command {
            FieldView::Text(name) => RenamingView::Rename(qualified(name, c)),
            _ => RenamingView::Refuse,
        },
        FieldView::Other => RenamingView::Refuse,
    }
}

/// A result with its commit in its command's name. A result without a
/// commit stays as it is. There is none where the renaming is refused.
pub open spec fn relabelled(entry: Json) -> Option<Json> {
    match renaming_of(field_of(commit_of(entry)), field_of(member_of(entry, "command"@))) {
        RenamingView::Keep => Some(entry),
        RenamingView::Rename(name) => Some(
            Json::Object(entry->Object_0.insert("command"@, Json::Text(name))),
        ),
        RenamingView::Refuse => None,
    }
}

/// The results with their commits in their names, in the same order; none
/// where one of them has none.
pub open spec fn relabelled_all(entries: Seq<Json>) -> Option<Seq<Json>>
    decreases entries.len(),
{
    if entries.len() == 0 {
        Some(Seq::empty())
    } else {
        match (relabelled_all(entries.drop_last()), relabelled(entries.last())) {
            (Some(head), Some(last)) => Some(head.push(last)),
            _ => None,
        }
    }
}

/// The relabelled results of a report, or its flaw.
pub open spec fn prepared_results(doc: Json) -> Result<Seq<Json>, Flaw> {
    match results_of(doc) {
        None => Err(Flaw::NoResults),
        Some(items) => match relabelled_all(items) {
            None => Err(Flaw::BadEntry),
            Some(out) => Ok(out),
        },
    }
}

/// A report with its results relabelled, or its flaw.
pub open spec fn prepared(doc: Json) -> Result<Json, Flaw> {
    match prepared_results(doc) {
        Ok(out) => Ok(Json::Object(doc->Object_0.insert("results"@, Json::List(out)))),
        Err(flaw) => Err(flaw),
    }
}

/// The relabelled results of the report written in `text`, or its flaw.
pub open spec fn file_results(text: Seq<char>) -> Result<Seq<Json>, Flaw> {
    match json_parse(text) {
        None => Err(Flaw::NotJson),
        Some(doc) => prepared_results(doc),
    }
}

/// The relabelled results of all the reports, one report after the other,
/// or the flaw of the first report that has one.
pub open spec fn gathered(files: Seq<Seq<char>>) -> Result<Seq<Json>, MergeError>
    decreases files.len(),
{
    if files.len() == 0 {
        Ok(Seq::empty())
    } else {
        match gathered(files.drop_last()) {
            Err(e) => Err(e),
            Ok(head) => match file_results(files.last()) {
                Err(flaw) => Err(flaw_at(files.len() - 1, flaw)),
                Ok(items) => Ok(head + items),
            },
        }
    }
}

/// The merged report: the first report, with the gathered results of all
/// reports as its results.
pub open spec fn merged(files: Seq<Seq<char>>) -> Result<Json, MergeError> {
    if files.len() == 0 {
        Err(MergeError::NoInput)
    } else {
        match gathered(files) {
            Err(e) => Err(e),
            Ok(all) => Ok(
                Json::Object(
                    json_parse(files[0])->0->Object_0.insert("results"@, Json::List(all)),
                ),
            ),
        }
    }
}

/// The name of `command` when measured on `commit`.
pub fn commit_label(command: &str, commit: &str) -> (name: String)
    ensures
        name@ == qualified(command@, commit@),
{
    let mut name = command.to_string();
    name.append("@");
    name.append(commit);
    name
}

/// Decides what becomes of the name of a command, given the commit of its
/// result and the name.
pub fn renaming(commit: &Field, command: &Field) -> (out: Renaming)
    ensures
        out@ == renaming_of(commit@, command@),
{
    match commit {
        Field::Missing => Renaming::Keep,
        Field::Text(suffix) => match command {
            Field::Text(old_name) => Renaming::Rename(
                commit_label(old_name.as_str(), suffix.as_str()),
            ),
            _ => Renaming::Refuse,
        },
        Field::Other => Renaming::Refuse,
    }
}

/// Reads an optional value.
fn field(v: Option<&Value>) -> (out: Field)
    ensures
        out@ == field_of(
            match v {
                Some(j) => Some(json_of(*j)),
                None => None,
            },
        ),
{
    match v {
        Some(j) => match text_of(j) {
            Some(s) => Field::Text(s.to_string()),
            None => Field::Other,
        },
        None => Field::Missing,
    }
}

/// Puts the commit of a result into the name of its command.
pub fn relabel(entry: &Value) -> (out: Option<Value>)
    ensures
        match out {
            Some(v) => relabelled(json_of(*entry)) == Some(json_of(v)),
            None => relabelled(json_of(*entry)) is None,
        },
{
    let commit = match member(entry, "parameters") {
        Some(parameters) => member(parameters, "commit"),
        None => None,
    };
    let commit = field(commit);
    let command = field(member(entry, "command"));
    match renaming(&commit, &command) {
        Renaming::Keep => Some(entry.clone()),
        Renaming::Rename(new_name) => {
            let mut run = entry.clone();
            set_member(&mut run, "command", text_value(new_name));
            Some(run)
        },
        Renaming::Refuse => None,
    }
}

/// The results of a report, each with its commit in its name.
fn relabelled_results(doc: &Value) -> (out: Result<Vec<Value>, Flaw>)
    ensures
        match out {
            Ok(v) => prepared_results(json_of(*doc)) == Ok::<Seq<Json>, Flaw>(jsons(v@)),
            Err(flaw) => prepared_results(json_of(*doc)) == Err::<Seq<Json>, Flaw>(flaw),
        },
{
    let results = match member(doc, "results") {
        Some(r) => match items_of(r) {
            Some(items) => items,
            None => {
                return Err(Flaw::NoResults);
            },
        },
        None => {
            return Err(Flaw::NoResults);
        },
    };
    let ghost entries = jsons(results@);
    let mut out: Vec<Value> = Vec::new();
    let mut i: usize = 0;
    while i < results.len()
        invariant
            i <= results.len(),
            entries == jsons(results@),
            results_of(json_of(*doc)) == Some(entries),
            relabelled_all(entries.take(i as int)) == Some(jsons(out@)),
        decreases results.len() - i,
    {
        proof {
            let now = entries.take(i + 1);
            assert(now.drop_last() =~= entries.take(i as int));
        }
        match relabel(&results[i]) {
            Some(run) => {
                out.push(run);
            },
            None => {
                proof {
                    lemma_flaw_stays(entries, i + 1);
                }
                return Err(Flaw::BadEntry);
            },
        }
        i += 1;
    }
    assert(entries.take(entries.len() as int) =~= entries);
    Ok(out)
}

/// Where the first `n` results cannot be relabelled, all of them cannot.
proof fn lemma_flaw_stays(entries: Seq<Json>, n: int)
    requires
        0 <= n <= entries.len(),
        relabelled_all(entries.take(n)) is None,
    ensures
        relabelled_all(entries) is None,
    decreases entries.len() - n,
{
    if n < entries.len() {
        assert(entries.take(n + 1).drop_last() =~= entries.take(n));
        lemma_flaw_stays(entries, n + 1);
    } else {
        assert(entries.take(n) =~= entries);
    }
}

/// Rewrites the results of a report so that each carries its commit in the
/// name of its command.
pub fn move_commit_label_to_cmd_name(json: Value) -> (out: Result<Value, Flaw>)
    ensures
        match out {
            Ok(v) => prepared(json_of(json)) == Ok::<Json, Flaw>(json_of(v)),
            Err(flaw) => prepared(json_of(json)) == Err::<Json, Flaw>(flaw),
        },
{
    match relabelled_results(&json) {
        Ok(results) => {
            let mut json = json;
            set_member(&mut json, "results", list_value(results));
            Ok(json)
        },
        Err(flaw) => Err(flaw),
    }
}

/// The error that the flaw of the report at `file` makes.
fn error_at(file: usize, flaw: Flaw) -> (e: MergeError)
    ensures
        e == flaw_at(file as int, flaw),
{
    match flaw {
        Flaw::NotJson => MergeError::NotJson(file),
        Flaw::NoResults => MergeError::NoResults(file),
        Flaw::BadEntry => MergeError::BadEntry(file),
    }
}

/// Where the first `n` reports have a flaw, the flaw is that of the whole.
proof fn lemma_error_stays(files: Seq<Seq<char>>, n: int)
    requires
        0 <= n <= files.len(),
        gathered(files.take(n)) is Err,
    ensures
        gathered(files) == gathered(files.take(n)),
    decreases files.len() - n,
{
    if n < files.len() {
        assert(files.take(n + 1).drop_last() =~= files.take(n));
        lemma_error_stays(files, n + 1);
    } else {
        assert(files.take(n) =~= files);
    }
}

/// Merges reports, given as the texts of their files, into one: the first
/// report, with the results of all reports, in the order of the files, as
/// its results. Each result carries its commit in the name of its command.
pub fn merge_json_files(files: &[String]) -> (out: Result<Value, MergeError>)
    ensures
        match out {
            Ok(v) => merged(texts(files@)) == Ok::<Json, MergeError>(json_of(v)),
            Err(e) => merged(texts(files@)) == Err::<Json, MergeError>(e),
        },
{
    if files.len() == 0 {
        return Err(MergeError::NoInput);
    }
    let ghost all_files = texts(files@);
    let mut result: Option<Value> = None;
    let mut result_list: Vec<Value> = Vec::new();
    let mut i: usize = 0;
    assert(jsons(result_list@) =~= Seq::<Json>::empty());
    while i < files.len()
        invariant
            i <= files.len(),
            all_files == texts(files@),
            gathered(all_files.take(i as int)) == Ok::<Seq<Json>, MergeError>(jsons(result_list@)),
            i > 0 ==> result is Some && json_parse(all_files[0]) == Some(json_of(result->0))
                && json_of(result->0) is Object,
        decreases files.len() - i,
    {
        proof {
            let now = all_files.take(i + 1);
            assert(now.drop_last() =~= all_files.take(i as int));
        }
        let val = match parse(files[i].as_str()) {
            Ok(v) => v,
            Err(_) => {
                proof {
                    lemma_error_stays(all_files, i + 1);
                }
                return Err(error_at(i, Flaw::NotJson));
            },
        };
        match relabelled_results(&val) {
            Ok(mut r) => {
                let ghost head = jsons(result_list@);
                let ghost tail = jsons(r@);
                result_list.append(&mut r);
                assert(jsons(result_list@) =~= head + tail);
            },
            Err(flaw) => {
                proof {
                    lemma_error_stays(all_files, i + 1);
                }
                return Err(error_at(i, flaw));
            },
        }
        if i == 0 {
            result = Some(val);
        }
        i += 1;
    }
    assert(all_files.take(all_files.len() as int) =~= all_files);
    let mut result = result.unwrap();
    set_member(&mut result, "results", list_value(result_list));
    Ok(result)
}

/// The text of a report, indented: the text that `serde_json` writes for
/// it, and none where it writes none.
pub fn report_text(json: &Value) -> (out: Option<String>)
    ensures
        opt_text(out) == json_pretty(json_of(*json)),
{
    match pretty(json) {
        Ok(text) => Some(text),
        Err(_) => None,
    }
}

/// A result without a commit among its parameters is left as it is: its
/// command keeps its name.
pub proof fn law_result_without_commit_unchanged(entry: Json)
    requires
        commit_of(entry) is None,
    ensures
        relabelled(entry) == Some(entry),
{
}

/// A result with a commit gets the commit into the name of its command,
/// behind an `@`, and stays as it is in everything else.
pub proof fn law_result_with_commit_renamed(entry: Json, command: Seq<char>, commit: Seq<char>)
    requires
        commit_of(entry) == Some(Json::Text(commit)),
        member_of(entry, "command"@) == Some(Json::Text(command)),
    ensures
        relabelled(entry) is Some,
        member_of(relabelled(entry)->0, "command"@) == Some(
            Json::Text(command + "@"@ + commit),
        ),
        forall|key: Seq<char>|
            key != "command"@ ==> member_of(relabelled(entry)->0, key) == member_of(entry, key),
        commit_of(relabelled(entry)->0) == commit_of(entry),
{
    reveal_strlit("command");
    reveal_strlit("parameters");
    assert("command"@.len() != "parameters"@.len());
}

/// Relabelled twice, a result with a commit carries the commit twice: the
/// relabelling is not to be repeated.
pub proof fn law_relabelled_twice(entry: Json, command: Seq<char>, commit: Seq<char>)
    requires
        commit_of(entry) == Some(Json::Text(commit)),
        member_of(entry, "command"@) == Some(Json::Text(command)),
    ensures
        relabelled(entry) is Some,
        relabelled(relabelled(entry)->0) is Some,
        member_of(relabelled(relabelled(entry)->0)->0, "command"@) == Some(
            Json::Text(command + "@"@ + commit + "@"@ + commit),
        ),
{
    law_result_with_commit_renamed(entry, command, commit);
    law_result_with_commit_renamed(relabelled(entry)->0, command + "@"@ + commit, commit);
}

/// The results of two reports are merged in the order of the reports: those
/// of the first, then those of the second.
pub proof fn law_merged_in_file_order(
    first: Seq<char>,
    second: Seq<char>,
    x: Seq<Json>,
    y: Seq<Json>,
)
    requires
        file_results(first) == Ok::<Seq<Json>, Flaw>(x),
        file_results(second) == Ok::<Seq<Json>, Flaw>(y),
    ensures
        gathered(seq![first, second]) == Ok::<Seq<Json>, MergeError>(x + y),
        merged(seq![first, second]) is Ok,
        results_of(merged(seq![first, second])->Ok_0) == Some(x + y),
{
    reveal_with_fuel(gathered, 3);
    let both = seq![first, second];
    assert(both.drop_last() =~= seq![first]);
    assert(seq![first].drop_last() =~= Seq::<Seq<char>>::empty());
    assert(gathered(seq![first]) == Ok::<Seq<Json>, MergeError>(Seq::<Json>::empty() + x));
    assert(Seq::<Json>::empty() + x =~= x);
}

} // verus!
