//! Annotations: commands whose output is written into the report of a run
//! once the run is over, installed as the cleanup of the timing tool.
use crate::text::{find, join, joined, lemma_first_where, pairs, position, texts};
use vstd::prelude::*;
use vstd::string::StringExecFns;

verus! {

/// No key stands twice in `kw`.
pub open spec fn keys_distinct(kw: Seq<(Seq<char>, Seq<char>)>) -> bool {
    forall|i: int, j: int| 0 <= i < j < kw.len() ==> kw[i].0 != kw[j].0
}

/// Some pair of `kw` has the key `key`.
pub open spec fn has_key(kw: Seq<(Seq<char>, Seq<char>)>, key: Seq<char>) -> bool {
    exists|i: int| 0 <= i < kw.len() && (#[trigger] kw[i]).0 == key
}

/// The annotations of a run: for the name of a field, the command whose
/// output is written into that field of the run's first result. They are
/// kept in the order in which they were added.
#[derive(Debug, PartialEq, Eq)]
pub struct Annotations {
    entries: Vec<(String, String)>,
}

impl View for Annotations {
    type V = Seq<(Seq<char>, Seq<char>)>;

    closed spec fn view(&self) -> Seq<(Seq<char>, Seq<char>)> {
        pairs(self.entries@)
    }
}

impl Annotations {
    /// Well-formedness: every field is named once.
    pub open spec fn wf(&self) -> bool {
        keys_distinct(self@)
    }

    /// No annotations.
    pub fn new() -> (kw: Annotations)
        ensures
            kw@ == Seq::<(Seq<char>, Seq<char>)>::empty(),
            kw.wf(),
    {
        let kw = Annotations { entries: Vec::new() };
        kw
    }

    /// Whether the field `key` has an annotation.
    pub fn contains_key(&self, key: &String) -> (found: bool)
        ensures
            found == has_key(self@, key@),
    {
        let mut i: usize = 0;
        while i < self.entries.len()
            invariant
                i <= self.entries.len(),
                self@.len() == self.entries.len(),
                forall|j: int| 0 <= j < i ==> (#[trigger] self@[j]).0 != key@,
            decreases self.entries.len() - i,
        {
            if self.entries[i].0 == *key {
                assert(self@[i as int].0 == key@);
                return true;
            }
            i += 1;
        }
        false
    }

    /// Adds the annotation of the field `key` after those that are there.
    /// A field that has one is refused, and the annotations stay as they
    /// are.
    pub fn add(&mut self, key: String, cmd: String) -> (added: bool)
        ensures
            added == !has_key(old(self)@, key@),
            added ==> final(self)@ == old(self)@.push((key@, cmd@)),
            !added ==> final(self)@ == old(self)@,
            old(self).wf() ==> final(self).wf(),
    {
        if self.contains_key(&key) {
            false
        } else {
            self.entries.push((key, cmd));
            true
        }
    }

    /// The number of annotations.
    pub fn len(&self) -> (n: usize)
        ensures
            n == self@.len(),
    {
        self.entries.len()
    }

    /// The field of the annotation at `i`.
    pub fn key(&self, i: usize) -> (key: &String)
        requires
            i < self@.len(),
        ensures
            key@ == self@[i as int].0,
    {
        &self.entries[i].0
    }

    /// The command of the annotation at `i`.
    pub fn command(&self, i: usize) -> (cmd: &String)
        requires
            i < self@.len(),
        ensures
            cmd@ == self@[i as int].1,
    {
        &self.entries[i].1
    }
}

/// The command that reads the output of `cmd` into the field `key` of the
/// first result of the report `json`.
pub open spec fn jq_command(key: Seq<char>, cmd: Seq<char>, json: Seq<char>) -> Seq<char> {
    "jq --arg "@ + key + " $("@ + cmd + ") '.results[0]."@ + key + "=$"@ + key + "' "@ + json
}

/// One such command for each annotation, in the order of `kw`.
pub open spec fn annotation_commands(
    kw: Seq<(Seq<char>, Seq<char>)>,
    json: Seq<char>,
) -> Seq<Seq<char>> {
    kw.map_values(|p: (Seq<char>, Seq<char>)| jq_command(p.0, p.1, json))
}

/// `params` with the annotation commands installed as its cleanup.
///
/// The commands are chained with `&&`. Where `params` already holds a
/// `--cleanup` flag followed by a value, that value runs last in the chain
/// and the chain takes its place. Otherwise the chain becomes the value of a
/// cleanup entry at the end.
pub open spec fn annotated(
    params: Seq<Seq<char>>,
    kw: Seq<(Seq<char>, Seq<char>)>,
    json: Seq<char>,
) -> Seq<Seq<char>> {
    let chain = annotation_commands(kw, json);
    match position(params, "--cleanup"@) {
        Some(ix) => if ix + 1 < params.len() {
            params.update(ix + 1, joined(chain.push(params[ix + 1]), "&&"@))
        } else {
            params.push(joined(chain, "&&"@))
        },
        None => params + seq!["--cleanup"@, joined(chain, "&&"@)],
    }
}

/// Generates the `jq` command that writes the output of `cmd` into the
/// field `key` of the first result in the file `json`.
pub fn generate_jq_cmd(key: &str, cmd: &str, json: &str) -> (out: String)
    ensures
        out@ == jq_command(key@, cmd@, json@),
{
    let mut out = "jq --arg ".to_string();
    out.append(key);
    out.append(" $(");
    out.append(cmd);
    out.append(") '.results[0].");
    out.append(key);
    out.append("=$");
    out.append(key);
    out.append("' ");
    out.append(json);
    out
}

/// Builds the annotation command of every pair in `kw`, in order.
fn annotation_chain(kw: &Annotations, json: &str) -> (chain: Vec<String>)
    ensures
        texts(chain@) == annotation_commands(kw@, json@),
{
    let mut chain: Vec<String> = Vec::new();
    let n = kw.len();
    let mut i: usize = 0;
    while i < n
        invariant
            i <= n == kw@.len(),
            texts(chain@) == annotation_commands(kw@, json@).take(i as int),
        decreases n - i,
    {
        let cmd = generate_jq_cmd(kw.key(i).as_str(), kw.command(i).as_str(), json);
        proof {
            let all = annotation_commands(kw@, json@);
            assert(all.take(i + 1) =~= all.take(i as int).push(cmd@));
        }
        chain.push(cmd);
        i += 1;
    }
    chain
}

/// Installs the annotations `kw` as the cleanup of `params`; the commands
/// write into the report `json`.
pub fn annotate(params: Vec<String>, kw: &Annotations, json: &str) -> (out: Vec<String>)
    ensures
        texts(out@) == annotated(texts(params@), kw@, json@),
{
    let mut params = params;
    let ghost before = texts(params@);
    let mut chain = annotation_chain(kw, json);
    let flag = "--cleanup".to_string();
    match find(&params, &flag) {
        Some(ix) => {
            if ix + 1 < params.len() {
                chain.push(params[ix + 1].clone());
                assert(texts(chain@) =~= annotation_commands(kw@, json@).push(
                    before[ix + 1],
                ));
                params.set(ix + 1, join(&chain, "&&"));
            } else {
                params.push(join(&chain, "&&"));
            }
        },
        None => {
            params.push(flag);
            params.push(join(&chain, "&&"));
        },
    }
    params
}

/// One annotation and a cleanup that is there make one cleanup entry: the
/// command of the annotation, then `&&`, then the cleanup that was there,
/// in the place of the latter. Nothing else changes.
pub proof fn law_annotation_joins_cleanup(
    params: Seq<Seq<char>>,
    key: Seq<char>,
    cmd: Seq<char>,
    json: Seq<char>,
    ix: int,
)
    requires
        position(params, "--cleanup"@) == Some(ix),
        ix + 1 < params.len(),
    ensures
        annotated(params, seq![(key, cmd)], json) == params.update(
            ix + 1,
            jq_command(key, cmd, json) + "&&"@ + params[ix + 1],
        ),
{
    let chain = annotation_commands(seq![(key, cmd)], json);
    let both = chain.push(params[ix + 1]);
    assert(both.drop_last() =~= chain);
    assert(chain[0] == jq_command(key, cmd, json));
    assert(joined(chain, "&&"@) == jq_command(key, cmd, json));
}

/// One annotation without a cleanup that is there makes a cleanup entry of
/// its own behind everything else.
pub proof fn law_annotation_makes_cleanup(
    params: Seq<Seq<char>>,
    key: Seq<char>,
    cmd: Seq<char>,
    json: Seq<char>,
)
    requires
        position(params, "--cleanup"@) is None,
    ensures
        annotated(params, seq![(key, cmd)], json) == params + seq![
            "--cleanup"@,
            jq_command(key, cmd, json),
        ],
{
    let chain = annotation_commands(seq![(key, cmd)], json);
    assert(chain[0] == jq_command(key, cmd, json));
}

} // verus!
