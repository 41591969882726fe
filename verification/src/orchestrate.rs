//! The order of the work: the runs, one after the other, the merge of
//! their reports, and the restoring of the working tree. The work itself is
//! done elsewhere: this module is told what happened and says what is to be
//! done next.
use crate::text::texts;
use vstd::prelude::*;

verus! {

/// How the whole operation ends.
#[derive(Clone, Copy, Debug, PartialEq, Eq, Structural)]
pub enum Verdict {
    /// At least one run succeeded and the reports were merged.
    Success,
    /// No run succeeded.
    NoSuccessfulRuns,
    /// The reports of the runs that succeeded could not be merged.
    MergeFailed,
    /// The work outside could not be carried on.
    Aborted,
}

/// Why the operation cannot begin.
#[derive(Clone, Copy, Debug, PartialEq, Eq, Structural)]
pub enum PreflightError {
    /// The timing tool is not installed.
    ToolMissing,
    /// The working tree differs from what is checked out.
    DirtyTree,
}

/// The text of a preflight error.
pub open spec fn preflight_text(e: PreflightError) -> Seq<char> {
    match e {
        PreflightError::ToolMissing => "Hyperfine not installed"@,
        PreflightError::DirtyTree => "Git is dirty"@,
    }
}

impl PreflightError {
    /// The text that tells the user of this error.
    pub fn message(&self) -> (msg: String)
        ensures
            msg@ == preflight_text(*self),
    {
        match self {
            PreflightError::ToolMissing => "Hyperfine not installed".to_string(),
            PreflightError::DirtyTree => "Git is dirty".to_string(),
        }
    }
}

/// Checks that the timing tool is there, given whether the search for it
/// found it.
pub fn hyperfine_installed(found: bool) -> (out: Result<(), PreflightError>)
    ensures
        out == (if found {
            Ok::<(), PreflightError>(())
        } else {
            Err::<(), PreflightError>(PreflightError::ToolMissing)
        }),
{
    if !found {
        Err(PreflightError::ToolMissing)
    } else {
        Ok(())
    }
}

/// Checks that the working tree is clean, given whether the version
/// control system found no difference.
pub fn is_git_dirty(clean: bool) -> (out: Result<(), PreflightError>)
    ensures
        out == (if clean {
            Ok::<(), PreflightError>(())
        } else {
            Err::<(), PreflightError>(PreflightError::DirtyTree)
        }),
{
    if clean {
        Ok(())
    } else {
        Err(PreflightError::DirtyTree)
    }
}

impl Verdict {
    /// The exit status of the process: zero for success, and for nothing
    /// else.
    pub fn exit_code(&self) -> (code: u8)
        ensures
            code == (if *self == Verdict::Success {
                0u8
            } else {
                1u8
            }),
    {
        match self {
            Verdict::Success => 0,
            _ => 1,
        }
    }
}

/// Where the operation stands.
#[derive(Clone, Copy, Debug, PartialEq, Eq, Structural)]
pub enum Phase {
    /// Nothing has been started.
    Fresh,
    /// A run is executing.
    Running,
    /// The reports are being merged.
    Merging,
    /// The revision that was checked out at the start is being restored.
    Restoring(Verdict),
    /// The operation has ended.
    Done(Verdict),
}

/// The state of one run.
#[derive(Debug, PartialEq, Eq)]
pub enum RunState {
    /// The run has not been started.
    Pending,
    /// The run is executing.
    Executing,
    /// The run succeeded and wrote its report to the file named.
    Succeeded(String),
    /// The run failed, with the diagnostic given.
    Failed(String),
}

/// The mathematical content of a [`RunState`].
pub enum RunStateView {
    Pending,
    Executing,
    Succeeded(Seq<char>),
    Failed(Seq<char>),
}

impl View for RunState {
    type V = RunStateView;

    open spec fn view(&self) -> RunStateView {
        match self {
            RunState::Pending => RunStateView::Pending,
            RunState::Executing => RunStateView::Executing,
            RunState::Succeeded(path) => RunStateView::Succeeded(path@),
            RunState::Failed(diagnostic) => RunStateView::Failed(diagnostic@),
        }
    }
}

/// What has happened outside.
#[derive(Debug, PartialEq, Eq)]
pub enum Event {
    /// The operation is to begin.
    Start,
    /// The run that was executing succeeded and wrote its report to the
    /// file named.
    RunSucceeded(String),
    /// The run that was executing failed, with the diagnostic given.
    RunFailed(String),
    /// The reports were merged and the merged report was written.
    Merged,
    /// The reports could not be merged, or the merged report not written.
    MergeFailed,
    /// The revision was restored.
    Restored,
    /// A run could not be started, or its end not be told.
    Aborted,
}

/// The mathematical content of an [`Event`].
pub enum EventView {
    Start,
    RunSucceeded(Seq<char>),
    RunFailed(Seq<char>),
    Merged,
    MergeFailed,
    Restored,
    Aborted,
}

impl View for Event {
    type V = EventView;

    open spec fn view(&self) -> EventView {
        match self {
            Event::Start => EventView::Start,
            Event::RunSucceeded(path) => EventView::RunSucceeded(path@),
            Event::RunFailed(diagnostic) => EventView::RunFailed(diagnostic@),
            Event::Merged => EventView::Merged,
            Event::MergeFailed => EventView::MergeFailed,
            Event::Restored => EventView::Restored,
            Event::Aborted => EventView::Aborted,
        }
    }
}

/// What is to be done outside next.
#[derive(Debug, PartialEq, Eq)]
pub enum Action {
    /// Execute the run at this place.
    Execute(usize),
    /// Merge the reports in these files, in this order.
    Merge(Vec<String>),
    /// Check out this revision.
    Restore(String),
    /// End the operation with this verdict.
    Finish(Verdict),
}

/// The mathematical content of an [`Action`].
pub enum ActionView {
    Execute(nat),
    Merge(Seq<Seq<char>>),
    Restore(Seq<char>),
    Finish(Verdict),
}

impl View for Action {
    type V = ActionView;

    open spec fn view(&self) -> ActionView {
        match self {
            Action::Execute(i) => ActionView::Execute(*i as nat),
            Action::Merge(files) => ActionView::Merge(texts(files@)),
            Action::Restore(revision) => ActionView::Restore(revision@),
            Action::Finish(verdict) => ActionView::Finish(*verdict),
        }
    }
}

/// The mathematical content of an [`Orchestrator`]: the revision that was
/// checked out at the start, the number of runs, how the runs ended that
/// have ended (each `Succeeded` or `Failed`), and the phase.
pub struct OrchestratorView {
    pub revision: Seq<char>,
    pub count: nat,
    pub ended: Seq<RunStateView>,
    pub phase: Phase,
}

/// The files of the runs that succeeded, in the order of the runs.
pub open spec fn reports(ended: Seq<RunStateView>) -> Seq<Seq<char>>
    decreases ended.len(),
{
    if ended.len() == 0 {
        Seq::empty()
    } else {
        match ended.last() {
            RunStateView::Succeeded(path) => reports(ended.drop_last()).push(path),
            _ => reports(ended.drop_last()),
        }
    }
}

/// What follows the end of a run: the next run, or, after the last, the
/// merge of the reports of the runs that succeeded; where none succeeded,
/// the restoring of the revision, with nothing merged.
pub open spec fn after_run(s: OrchestratorView) -> (OrchestratorView, Option<ActionView>) {
    if s.ended.len() < s.count {
        (OrchestratorView { phase: Phase::Running, ..s }, Some(ActionView::Execute(s.ended.len())))
    } else if reports(s.ended).len() == 0 {
        (
            OrchestratorView { phase: Phase::Restoring(Verdict::NoSuccessfulRuns), ..s },
            Some(ActionView::Restore(s.revision)),
        )
    } else {
        (OrchestratorView { phase: Phase::Merging, ..s }, Some(ActionView::Merge(reports(s.ended))))
    }
}

/// The state after an event, and what is to be done next. Whatever ends
/// the runs or the merge, the revision is restored next. An event that the
/// phase does not wait for changes nothing and asks for nothing.
pub open spec fn transition(s: OrchestratorView, e: EventView) -> (
    OrchestratorView,
    Option<ActionView>,
) {
    match (s.phase, e) {
        (Phase::Fresh, EventView::Start) => after_run(s),
        (Phase::Running, EventView::RunSucceeded(path)) => after_run(
            OrchestratorView { ended: s.ended.push(RunStateView::Succeeded(path)), ..s },
        ),
        (Phase::Running, EventView::RunFailed(diagnostic)) => after_run(
            OrchestratorView { ended: s.ended.push(RunStateView::Failed(diagnostic)), ..s },
        ),
        (Phase::Merging, EventView::Merged) => (
            OrchestratorView { phase: Phase::Restoring(Verdict::Success), ..s },
            Some(ActionView::Restore(s.revision)),
        ),
        (Phase::Merging, EventView::MergeFailed) => (
            OrchestratorView { phase: Phase::Restoring(Verdict::MergeFailed), ..s },
            Some(ActionView::Restore(s.revision)),
        ),
        (Phase::Running, EventView::Aborted) => (
            OrchestratorView { phase: Phase::Restoring(Verdict::Aborted), ..s },
            Some(ActionView::Restore(s.revision)),
        ),
        (Phase::Restoring(verdict), EventView::Restored) => (
            OrchestratorView { phase: Phase::Done(verdict), ..s },
            Some(ActionView::Finish(verdict)),
        ),
        _ => (s, None),
    }
}

/// The state of the run at place `i`.
pub open spec fn run_state_of(s: OrchestratorView, i: int) -> RunStateView {
    if 0 <= i < s.ended.len() {
        s.ended[i]
    } else if i == s.ended.len() && s.phase == Phase::Running {
        RunStateView::Executing
    } else {
        RunStateView::Pending
    }
}

/// Runs the runs of a benchmark one after the other, has the reports of
/// those that succeeded merged, and has the revision that was checked out
/// at the start restored before the end.
pub struct Orchestrator {
    revision: String,
    count: usize,
    ended: Vec<RunState>,
    phase: Phase,
}

impl View for Orchestrator {
    type V = OrchestratorView;

    closed spec fn view(&self) -> OrchestratorView {
        OrchestratorView {
            revision: self.revision@,
            count: self.count as nat,
            ended: self.ended@.map_values(|r: RunState| r@),
            phase: self.phase,
        }
    }
}

impl Orchestrator {
    /// An orchestrator for `count` runs, none of them started, in a
    /// working tree that has `revision` checked out.
    pub fn new(count: usize, revision: String) -> (o: Orchestrator)
        ensures
            o@ == (OrchestratorView {
                revision: revision@,
                count: count as nat,
                ended: Seq::empty(),
                phase: Phase::Fresh,
            }),
    {
        let o = Orchestrator { revision, count, ended: Vec::new(), phase: Phase::Fresh };
        assert(o@.ended =~= Seq::empty());
        o
    }

    /// The phase.
    pub fn phase(&self) -> (phase: Phase)
        ensures
            phase == self@.phase,
    {
        self.phase
    }

    /// The state of the run at place `i`.
    pub fn run_state(&self, i: usize) -> (state: RunState)
        ensures
            state@ == run_state_of(self@, i as int),
    {
        if i < self.ended.len() {
            match &self.ended[i] {
                RunState::Pending => RunState::Pending,
                RunState::Executing => RunState::Executing,
                RunState::Succeeded(path) => RunState::Succeeded(path.clone()),
                RunState::Failed(diagnostic) => RunState::Failed(diagnostic.clone()),
            }
        } else if i == self.ended.len() && self.phase == Phase::Running {
            RunState::Executing
        } else {
            RunState::Pending
        }
    }

    /// The files of the runs that succeeded, in the order of the runs.
    fn reports(&self) -> (files: Vec<String>)
        ensures
            texts(files@) == reports(self@.ended),
    {
        let mut files: Vec<String> = Vec::new();
        let mut i: usize = 0;
        while i < self.ended.len()
            invariant
                i <= self.ended.len(),
                self@.ended.len() == self.ended.len(),
                texts(files@) == reports(self@.ended.take(i as int)),
            decreases self.ended.len() - i,
        {
            proof {
                let now = self@.ended.take(i + 1);
                assert(now.drop_last() =~= self@.ended.take(i as int));
            }
            match &self.ended[i] {
                RunState::Succeeded(path) => {
                    files.push(path.clone());
                },
                _ => {},
            }
            i += 1;
        }
        assert(self@.ended.take(self@.ended.len() as int) =~= self@.ended);
        files
    }

    /// Decides what follows the end of a run.
    fn advance(&mut self) -> (action: Option<Action>)
        ensures
            (final(self)@, opt_action(action)) == after_run(old(self)@),
    {
        if self.ended.len() < self.count {
            self.phase = Phase::Running;
            Some(Action::Execute(self.ended.len()))
        } else {
            let files = self.reports();
            if files.len() == 0 {
                self.phase = Phase::Restoring(Verdict::NoSuccessfulRuns);
                Some(Action::Restore(self.revision.clone()))
            } else {
                self.phase = Phase::Merging;
                Some(Action::Merge(files))
            }
        }
    }

    /// Takes note of an event and says what is to be done next.
    pub fn step(&mut self, event: Event) -> (action: Option<Action>)
        ensures
            (final(self)@, opt_action(action)) == transition(old(self)@, event@),
    {
        match (self.phase, event) {
            (Phase::Fresh, Event::Start) => self.advance(),
            (Phase::Running, Event::RunSucceeded(path)) => {
                let ghost before = self@.ended;
                self.ended.push(RunState::Succeeded(path));
                assert(self@.ended =~= before.push(RunStateView::Succeeded(path@)));
                self.advance()
            },
            (Phase::Running, Event::RunFailed(diagnostic)) => {
                let ghost before = self@.ended;
                self.ended.push(RunState::Failed(diagnostic));
                assert(self@.ended =~= before.push(RunStateView::Failed(diagnostic@)));
                self.advance()
            },
            (Phase::Merging, Event::Merged) => {
                self.phase = Phase::Restoring(Verdict::Success);
                Some(Action::Restore(self.revision.clone()))
            },
            (Phase::Merging, Event::MergeFailed) => {
                self.phase = Phase::Restoring(Verdict::MergeFailed);
                Some(Action::Restore(self.revision.clone()))
            },
            (Phase::Running, Event::Aborted) => {
                self.phase = Phase::Restoring(Verdict::Aborted);
                Some(Action::Restore(self.revision.clone()))
            },
            (Phase::Restoring(verdict), Event::Restored) => {
                self.phase = Phase::Done(verdict);
                Some(Action::Finish(verdict))
            },
            _ => None,
        }
    }
}

/// What an optional action holds.
pub open spec fn opt_action(a: Option<Action>) -> Option<ActionView> {
    match a {
        Some(action) => Some(action@),
        None => None,
    }
}

/// The state of an operation on `count` runs before it begins.
pub open spec fn initial(count: nat, revision: Seq<char>) -> OrchestratorView {
    OrchestratorView { revision, count, ended: Seq::empty(), phase: Phase::Fresh }
}

/// The state after a sequence of events, and the actions asked for on the
/// way, in their order.
pub open spec fn replay(s: OrchestratorView, events: Seq<EventView>) -> (
    OrchestratorView,
    Seq<ActionView>,
)
    decreases events.len(),
{
    if events.len() == 0 {
        (s, Seq::empty())
    } else {
        let (before, asked) = replay(s, events.drop_last());
        let (after, action) = transition(before, events.last());
        match action {
            Some(a) => (after, asked.push(a)),
            None => (after, asked),
        }
    }
}

/// The runs that were asked to be executed, in the order of the asking.
pub open spec fn executions(asked: Seq<ActionView>) -> Seq<nat>
    decreases asked.len(),
{
    if asked.len() == 0 {
        Seq::empty()
    } else {
        match asked.last() {
            ActionView::Execute(i) => executions(asked.drop_last()).push(i),
            _ => executions(asked.drop_last()),
        }
    }
}

/// The number of runs that have been started: those that have ended, and
/// the one that is executing or was executing when the operation was
/// aborted.
pub open spec fn started(s: OrchestratorView) -> nat {
    if s.phase == Phase::Running || s.phase == Phase::Restoring(Verdict::Aborted) || s.phase
        == Phase::Done(Verdict::Aborted) {
        s.ended.len() + 1
    } else {
        s.ended.len()
    }
}

/// The verdict fits the way in which the runs ended: unless the operation
/// was aborted, every run has ended, and no run has succeeded exactly
/// where the verdict says so.
pub open spec fn fits(verdict: Verdict, count: nat, ended: Seq<RunStateView>) -> bool {
    verdict != Verdict::Aborted ==> {
        &&& ended.len() == count
        &&& verdict == Verdict::NoSuccessfulRuns <==> reports(ended).len() == 0
    }
}

/// What holds of every state that an operation on `count` runs, begun
/// with `revision` checked out, can reach, and of the actions `asked` for
/// on the way.
pub open spec fn reachable(
    count: nat,
    revision: Seq<char>,
    s: OrchestratorView,
    asked: Seq<ActionView>,
) -> bool {
    &&& s.revision == revision
    &&& s.count == count
    &&& s.ended.len() <= count
    &&& forall|i: int|
        0 <= i < s.ended.len() ==> #[trigger] s.ended[i] is Succeeded || s.ended[i] is Failed
    &&& executions(asked) == Seq::new(started(s), |i: int| i as nat)
    &&& match s.phase {
        Phase::Fresh => s.ended.len() == 0 && asked.len() == 0,
        Phase::Running => {
            &&& s.ended.len() < count
            &&& asked.len() >= 1
            &&& asked.last() == ActionView::Execute(s.ended.len())
        },
        Phase::Merging => {
            &&& s.ended.len() == count
            &&& reports(s.ended).len() > 0
            &&& asked.len() >= 1
            &&& asked.last() == ActionView::Merge(reports(s.ended))
        },
        Phase::Restoring(verdict) => {
            &&& fits(verdict, count, s.ended)
            &&& asked.len() >= 1
            &&& asked.last() == ActionView::Restore(revision)
        },
        Phase::Done(verdict) => {
            &&& fits(verdict, count, s.ended)
            &&& asked.len() >= 2
            &&& asked[asked.len() - 2] == ActionView::Restore(revision)
            &&& asked.last() == ActionView::Finish(verdict)
        },
    }
}

/// Whatever events come in, the operation stays within `reachable`.
pub proof fn law_reachable(count: nat, revision: Seq<char>, events: Seq<EventView>)
    ensures
        reachable(
            count,
            revision,
            replay(initial(count, revision), events).0,
            replay(initial(count, revision), events).1,
        ),
    decreases events.len(),
{
    if events.len() > 0 {
        law_reachable(count, revision, events.drop_last());
        let (before, asked) = replay(initial(count, revision), events.drop_last());
        let (after, action) = transition(before, events.last());
        match action {
            Some(a) => {
                assert(asked.push(a).drop_last() =~= asked);
                assert(executions(asked.push(a)) =~= Seq::new(started(after), |i: int| i as nat));
            },
            None => {},
        }
    } else {
        assert(executions(Seq::empty()) =~= Seq::new(0, |i: int| i as nat));
    }
}

/// The runs are executed one after the other, each once, in their order:
/// at any time, those that were asked to be executed are the first
/// `started` ones. At the end of an operation that was not aborted, these
/// are all the runs.
pub proof fn law_runs_in_order(count: nat, revision: Seq<char>, events: Seq<EventView>)
    ensures
        ({
            let (s, asked) = replay(initial(count, revision), events);
            &&& executions(asked) == Seq::new(started(s), |i: int| i as nat)
            &&& s.phase matches Phase::Done(verdict) ==> verdict != Verdict::Aborted
                ==> executions(asked) == Seq::new(count, |i: int| i as nat)
        }),
{
    law_reachable(count, revision, events);
}

/// However the runs end, the operation ends only after it has asked for
/// the revision that was checked out at the start to be restored: that is
/// the action before the last. Unless it was aborted, every run has ended
/// by then, and the verdict is `NoSuccessfulRuns` exactly when no run
/// succeeded.
pub proof fn law_revision_restored(count: nat, revision: Seq<char>, events: Seq<EventView>)
    ensures
        ({
            let (s, asked) = replay(initial(count, revision), events);
            s.phase matches Phase::Done(verdict) ==> {
                &&& asked.len() >= 2
                &&& asked[asked.len() - 2] == ActionView::Restore(revision)
                &&& asked.last() == ActionView::Finish(verdict)
                &&& fits(verdict, count, s.ended)
            }
        }),
{
    law_reachable(count, revision, events);
}

/// The reports that are merged are those of the runs that succeeded: a
/// run that failed adds none, and one that succeeded adds its own after
/// those of the runs before it.
pub proof fn law_failed_run_excluded(ended: Seq<RunStateView>, last: RunStateView)
    ensures
        last matches RunStateView::Succeeded(path) ==> reports(ended.push(last)) == reports(
            ended,
        ).push(path),
        !(last is Succeeded) ==> reports(ended.push(last)) == reports(ended),
{
    assert(ended.push(last).drop_last() =~= ended);
}

} // verus!
