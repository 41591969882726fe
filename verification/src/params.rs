//! The arguments with which the timing tool is called: those that all runs
//! share, and those of one run.
use crate::annotations::{annotate, annotated, Annotations};
use crate::stdx::{debug_format, debug_format_str, debug_string, debug_text};
use crate::text::{join, joined, opt_text, opt_texts, texts};
use vstd::prelude::*;
use vstd::string::StringExecFns;

verus! {

/// What can be turned into arguments of the timing tool.
pub trait Hyperfined {
    /// The arguments that this value stands for.
    spec fn arguments(&self) -> Seq<Seq<char>>;

    /// The arguments of this value.
    fn to_hyperfine(&self) -> (params: Vec<String>)
        ensures
            texts(params@) == self.arguments(),
    ;

    /// The arguments, followed by the request to export the report to `json`.
    fn to_hyperfine_with_json(&self, json: &str) -> (params: Vec<String>)
        ensures
            texts(params@) == self.arguments() + seq!["--export-json"@, json@],
    {
        let mut params = self.to_hyperfine();
        params.push("--export-json".to_string());
        params.push(json.to_string());
        params
    }

    /// The arguments with the export request, and with the annotations `kw`
    /// installed as cleanup.
    fn to_hyperfine_with_json_and_annotations(
        &self,
        json: &str,
        kw: &Annotations,
    ) -> (params: Vec<String>)
        ensures
            texts(params@) == annotated(
                self.arguments() + seq!["--export-json"@, json@],
                kw@,
                json@,
            ),
    {
        let params = self.to_hyperfine_with_json(json);
        annotate(params, kw, json)
    }
}

/// The mathematical content of a [`Run`].
pub struct RunView {
    pub commits: Option<Seq<Seq<char>>>,
    pub cleanup: Option<Seq<char>>,
    pub prepare: Option<Seq<char>>,
    pub setup: Option<Seq<char>>,
    pub shell: Option<Seq<char>>,
    pub annotations: Option<Seq<(Seq<char>, Seq<char>)>>,
    pub command: Seq<char>,
}

/// One timed command, possibly repeated over several revisions.
#[derive(Debug)]
pub struct Run {
    commits: Option<Vec<String>>,
    cleanup: Option<String>,
    prepare: Option<String>,
    setup: Option<String>,
    shell: Option<String>,
    annotations: Option<Annotations>,
    command: String,
}

/// The `--shell` entry: present when a shell is set, unless commits and
/// setup are both set as well, in which case the shell is dropped.
pub open spec fn shell_part(r: RunView) -> Seq<Seq<char>> {
    match r.shell {
        Some(sh) => if r.commits is Some && r.setup is Some {
            seq![]
        } else {
            seq!["--shell"@, sh]
        },
        None => seq![],
    }
}

/// The parameter list that names the commits, for a run that has any.
pub open spec fn commits_part(r: RunView) -> Seq<Seq<char>> {
    match r.commits {
        Some(ids) => if ids.len() > 0 {
            seq!["--parameter-list"@, "commit"@, joined(ids, ","@)]
        } else {
            seq![]
        },
        None => seq![],
    }
}

/// The `--cleanup` entry of a run with a cleanup command.
pub open spec fn cleanup_part(r: RunView) -> Seq<Seq<char>> {
    match r.cleanup {
        Some(c) => seq!["--cleanup"@, c],
        None => seq![],
    }
}

/// The `--prepare` entry of a run with a prepare command.
pub open spec fn prepare_part(r: RunView) -> Seq<Seq<char>> {
    match r.prepare {
        Some(c) => seq!["--prepare"@, c],
        None => seq![],
    }
}

/// The setup command that takes effect: with commits, the checkout of the
/// revision under test comes first.
pub open spec fn effective_setup(r: RunView) -> Option<Seq<char>> {
    match (r.setup, r.commits) {
        (Some(s), Some(_)) => Some("checkout {commit} && "@ + s),
        (None, Some(_)) => Some("checkout {commit}"@),
        (Some(s), None) => Some(s),
        (None, None) => None,
    }
}

/// The `--setup` entry, where a setup takes effect.
pub open spec fn setup_part(r: RunView) -> Seq<Seq<char>> {
    match effective_setup(r) {
        Some(c) => seq!["--setup"@, c],
        None => seq![],
    }
}

/// The options of a run: shell, parameter list, cleanup, prepare and setup,
/// in this order.
pub open spec fn run_options(r: RunView) -> Seq<Seq<char>> {
    shell_part(r) + commits_part(r) + cleanup_part(r) + prepare_part(r) + setup_part(r)
}

/// The arguments of a run: its options, and the command last.
pub open spec fn run_arguments(r: RunView) -> Seq<Seq<char>> {
    run_options(r).push(r.command)
}

/// The arguments of a run whose report goes to `json`: the options, with
/// the run's annotations installed as cleanup where it has any, and the
/// command last.
pub open spec fn run_arguments_for(r: RunView, json: Seq<char>) -> Seq<Seq<char>> {
    match r.annotations {
        Some(kw) => annotated(run_options(r), kw, json).push(r.command),
        None => run_arguments(r),
    }
}

/// Whatever the settings of a run, its command stands last among its
/// arguments, and what stands before it does not depend on the command.
pub proof fn law_command_is_last(r: RunView, json: Seq<char>)
    ensures
        run_arguments(r).last() == r.command,
        run_arguments(r).drop_last() == run_options(r),
        run_arguments_for(r, json).last() == r.command,
        run_options(RunView { command: Seq::empty(), ..r }) == run_options(r),
{
    assert(run_arguments(r).drop_last() =~= run_options(r));
}

impl View for Run {
    type V = RunView;

    closed spec fn view(&self) -> RunView {
        RunView {
            commits: opt_texts(self.commits),
            cleanup: opt_text(self.cleanup),
            prepare: opt_text(self.prepare),
            setup: opt_text(self.setup),
            shell: opt_text(self.shell),
            annotations: match self.annotations {
                Some(kw) => Some(kw@),
                None => None,
            },
            command: self.command@,
        }
    }
}

impl Run {
    /// A run of `command` with the given settings.
    pub fn new(
        commits: Option<Vec<String>>,
        cleanup: Option<String>,
        prepare: Option<String>,
        setup: Option<String>,
        shell: Option<String>,
        annotations: Option<Annotations>,
        command: String,
    ) -> (run: Run)
        ensures
            run@ == (RunView {
                commits: opt_texts(commits),
                cleanup: opt_text(cleanup),
                prepare: opt_text(prepare),
                setup: opt_text(setup),
                shell: opt_text(shell),
                annotations: match annotations {
                    Some(kw) => Some(kw@),
                    None => None,
                },
                command: command@,
            }),
    {
        Run { commits, cleanup, prepare, setup, shell, annotations, command }
    }

    /// Whether the shell of this run is dropped from its arguments: it is
    /// where commits and a setup are set beside it.
    pub fn shell_is_dropped(&self) -> (dropped: bool)
        ensures
            dropped == (self@.shell is Some && self@.commits is Some && self@.setup is Some),
    {
        self.shell.is_some() && self.commits.is_some() && self.setup.is_some()
    }

    /// The options of this run, without its command.
    fn options(&self) -> (result: Vec<String>)
        ensures
            texts(result@) == run_options(self@),
    {
        let mut result: Vec<String> = Vec::new();
        match (&self.shell, &self.commits, &self.setup) {
            (Some(_), Some(_), Some(_)) => {},
            (Some(sh), _, _) => {
                result.push("--shell".to_string());
                result.push(sh.clone());
            },
            _ => {},
        }
        match &self.commits {
            Some(ids) => {
                if ids.len() > 0 {
                    result.push("--parameter-list".to_string());
                    result.push("commit".to_string());
                    result.push(join(ids, ","));
                }
            },
            None => (),
        }
        match &self.cleanup {
            Some(cmd) => {
                result.push("--cleanup".to_string());
                result.push(cmd.clone());
            },
            None => (),
        }
        match &self.prepare {
            Some(cmd) => {
                result.push("--prepare".to_string());
                result.push(cmd.clone());
            },
            None => (),
        }
        match (&self.setup, &self.commits) {
            (Some(scmd), Some(_)) => {
                result.push("--setup".to_string());
                let mut concat = "checkout {commit} && ".to_string();
                concat.append(scmd.as_str());
                result.push(concat);
            },
            (None, Some(_)) => {
                result.push("--setup".to_string());
                result.push("checkout {commit}".to_string());
            },
            (Some(scmd), None) => {
                result.push("--setup".to_string());
                result.push(scmd.clone());
            },
            (None, None) => (),
        }
        result
    }

    /// The arguments of this run: its options, and the command last.
    pub fn to_hyperfine_params(&self) -> (result: Vec<String>)
        ensures
            texts(result@) == run_arguments(self@),
    {
        let mut result = self.options();
        result.push(self.command.clone());
        result
    }

    /// The arguments of this run when its report goes to the file `json`:
    /// as `to_hyperfine_params`, with the run's annotations installed as
    /// cleanup.
    pub fn to_hyperfine_params_for(&self, json: &str) -> (result: Vec<String>)
        ensures
            texts(result@) == run_arguments_for(self@, json@),
    {
        let mut result = self.options();
        match &self.annotations {
            Some(kw) => {
                result = annotate(result, kw, json);
            },
            None => {},
        }
        result.push(self.command.clone());
        result
    }
}

impl Hyperfined for Run {
    open spec fn arguments(&self) -> Seq<Seq<char>> {
        run_arguments(self@)
    }

    fn to_hyperfine(&self) -> (params: Vec<String>) {
        self.to_hyperfine_params()
    }
}

/// The mathematical content of a [`Benchmark`].
pub struct BenchmarkView {
    pub output: Seq<char>,
    pub hyperfine_params: Seq<Seq<char>>,
    pub run: Seq<(Seq<char>, RunView)>,
}

/// No label stands twice in `run`.
pub open spec fn labels_distinct(run: Seq<(Seq<char>, RunView)>) -> bool {
    forall|i: int, j: int| 0 <= i < j < run.len() ==> run[i].0 != run[j].0
}

/// Some run of `run` has the label `label`.
pub open spec fn has_label(run: Seq<(Seq<char>, RunView)>, label: Seq<char>) -> bool {
    exists|j: int| 0 <= j < run.len() && (#[trigger] run[j]).0 == label
}

/// The settings shared by all runs, and the runs by label, in the order in
/// which they were added.
#[derive(Debug)]
pub struct Benchmark {
    output: String,
    hyperfine_params: Vec<String>,
    run: Vec<(String, Run)>,
}

/// The full argument sequence of one run: the shared parameters, the name
/// of the command, the file to export to, and the run's own arguments.
pub open spec fn command_line(
    shared: Seq<Seq<char>>,
    label: Seq<char>,
    run: RunView,
    json: Seq<char>,
) -> Seq<Seq<char>> {
    shared + seq!["--command-name"@, label, "--export-json"@, json] + run_arguments_for(run, json)
}

/// The lines that describe one run: its label, and its arguments.
pub open spec fn run_description(label: Seq<char>, run: RunView) -> Seq<char> {
    "Subcommand Settings: "@ + debug_string(label) + "\n"@ + debug_text(run_arguments(run))
        + "\n"@
}

/// The lines that describe the runs, one run after the other.
pub open spec fn runs_description(run: Seq<(Seq<char>, RunView)>) -> Seq<char>
    decreases run.len(),
{
    if run.len() == 0 {
        Seq::empty()
    } else {
        runs_description(run.drop_last()) + run_description(run.last().0, run.last().1)
    }
}

/// The text that describes a benchmark: the shared parameters, then each
/// run, then an empty line.
pub open spec fn description(b: BenchmarkView) -> Seq<char> {
    "Common Settings:\n"@ + debug_text(b.hyperfine_params) + "\n"@ + runs_description(b.run)
        + "\n"@
}

impl View for Benchmark {
    type V = BenchmarkView;

    closed spec fn view(&self) -> BenchmarkView {
        BenchmarkView {
            output: self.output@,
            hyperfine_params: texts(self.hyperfine_params@),
            run: self.run@.map_values(|p: (String, Run)| (p.0@, p.1@)),
        }
    }
}

impl Benchmark {
    /// Well-formedness: every run has a label of its own.
    pub open spec fn wf(&self) -> bool {
        labels_distinct(self@.run)
    }

    /// A benchmark without runs.
    pub fn new(output: String, hyperfine_params: Vec<String>) -> (b: Benchmark)
        ensures
            b.wf(),
            b@ == (BenchmarkView {
                output: output@,
                hyperfine_params: texts(hyperfine_params@),
                run: Seq::empty(),
            }),
    {
        let b = Benchmark { output, hyperfine_params, run: Vec::new() };
        assert(b@.run =~= Seq::empty());
        b
    }

    /// Where the run labelled `label` stands, if there is one.
    pub fn find_run(&self, label: &String) -> (found: Option<usize>)
        ensures
            match found {
                Some(i) => i < self@.run.len() && self@.run[i as int].0 == label@,
                None => !has_label(self@.run, label@),
            },
    {
        let mut i: usize = 0;
        while i < self.run.len()
            invariant
                i <= self.run.len(),
                self@.run.len() == self.run.len(),
                forall|j: int| 0 <= j < i ==> self@.run[j].0 != label@,
            decreases self.run.len() - i,
        {
            if self.run[i].0 == *label {
                return Some(i);
            }
            i += 1;
        }
        None
    }

    /// Adds `run` under `label` after the runs that are there. A label that
    /// is taken is refused, and the benchmark stays as it is.
    pub fn add_run(&mut self, label: String, run: Run) -> (added: bool)
        ensures
            added == !has_label(old(self)@.run, label@),
            added ==> final(self)@ == (BenchmarkView {
                run: old(self)@.run.push((label@, run@)),
                ..old(self)@
            }),
            !added ==> final(self)@ == old(self)@,
            old(self).wf() ==> final(self).wf(),
    {
        match self.find_run(&label) {
            Some(i) => false,
            None => {
                let ghost before = self@.run;
                self.run.push((label, run));
                assert(self@.run =~= before.push((label@, run@)));
                true
            },
        }
    }

    /// The file that the merged report is to be written to.
    pub fn output(&self) -> (out: &String)
        ensures
            out@ == self@.output,
    {
        &self.output
    }

    /// Where the merged report goes: to the file `output`, or, where no
    /// file is named, to the standard output.
    pub fn destination(&self) -> (file: Option<&String>)
        ensures
            match file {
                Some(path) => path@ == self@.output && self@.output.len() > 0,
                None => self@.output.len() == 0,
            },
    {
        if self.output.as_str().is_empty() {
            None
        } else {
            Some(&self.output)
        }
    }

    /// The number of runs.
    pub fn run_count(&self) -> (n: usize)
        ensures
            n == self@.run.len(),
    {
        self.run.len()
    }

    /// The label of the run at `i`.
    pub fn label(&self, i: usize) -> (label: &String)
        requires
            i < self@.run.len(),
        ensures
            label@ == self@.run[i as int].0,
    {
        &self.run[i].0
    }

    /// The run at `i`.
    pub fn run(&self, i: usize) -> (run: &Run)
        requires
            i < self@.run.len(),
        ensures
            run@ == self@.run[i as int].1,
    {
        &self.run[i].1
    }

    /// The parameters that all runs share.
    pub fn to_hyperfine_params(&self) -> (params: Vec<String>)
        ensures
            texts(params@) == self@.hyperfine_params,
    {
        let params = self.hyperfine_params.clone();
        params
    }

    /// The text that describes this benchmark to the user.
    pub fn describe(&self) -> (out: String)
        ensures
            out@ == description(self@),
    {
        let mut out = "Common Settings:\n".to_string();
        out.append(debug_format(self.hyperfine_params.as_slice()).as_str());
        out.append("\n");
        let ghost head = out@;
        let mut i: usize = 0;
        while i < self.run.len()
            invariant
                i <= self.run.len(),
                self@.run.len() == self.run.len(),
                out@ == head + runs_description(self@.run.take(i as int)),
            decreases self.run.len() - i,
        {
            proof {
                let now = self@.run.take(i + 1);
                assert(now.drop_last() =~= self@.run.take(i as int));
            }
            out.append("Subcommand Settings: ");
            out.append(debug_format_str(self.run[i].0.as_str()).as_str());
            out.append("\n");
            out.append(debug_format(self.run[i].1.to_hyperfine_params().as_slice()).as_str());
            out.append("\n");
            i += 1;
        }
        assert(self@.run.take(self@.run.len() as int) =~= self@.run);
        out.append("\n");
        out
    }

    /// The full argument sequence for the run at `i`, whose report goes to
    /// the file `json`.
    pub fn command_line(&self, i: usize, json: &str) -> (params: Vec<String>)
        requires
            i < self@.run.len(),
        ensures
            texts(params@) == command_line(
                self@.hyperfine_params,
                self@.run[i as int].0,
                self@.run[i as int].1,
                json@,
            ),
    {
        let mut params = self.to_hyperfine_params();
        params.push("--command-name".to_string());
        params.push(self.run[i].0.clone());
        params.push("--export-json".to_string());
        params.push(json.to_string());
        let mut own = self.run[i].1.to_hyperfine_params_for(json);
        params.append(&mut own);
        params
    }
}

impl Hyperfined for Benchmark {
    open spec fn arguments(&self) -> Seq<Seq<char>> {
        self@.hyperfine_params
    }

    fn to_hyperfine(&self) -> (params: Vec<String>) {
        self.to_hyperfine_params()
    }
}

/// The name of the file that holds the report of the run labelled `label`.
pub fn json_file_name(label: &str) -> (name: String)
    ensures
        name@ == label@ + ".json"@,
{
    let mut name = label.to_string();
    name.append(".json");
    name
}

} // verus!
