use hypcmp::merge::merge_json_files;
use hypcmp::orchestrate::{
    hyperfine_installed, is_git_dirty, Action, Event, Orchestrator, Phase, PreflightError,
    RunState, Verdict,
};
use hypcmp::params::{json_file_name, Benchmark, Run};

fn plain_run(command: &str) -> Run {
    Run::new(None, None, None, None, None, None, command.to_string())
}

#[test]
fn one_run_succeeds_and_one_fails() {
    let mut benchmark = Benchmark::new("out.json".to_string(), vec!["--runs".to_string(),
        "2".to_string()]);
    assert!(benchmark.add_run("good".to_string(), plain_run("true")));
    assert!(benchmark.add_run("bad".to_string(), plain_run("false")));

    let mut o = Orchestrator::new(benchmark.run_count(), "main".to_string());
    assert_eq!(o.step(Event::Start), Some(Action::Execute(0)));
    assert_eq!(o.run_state(0), RunState::Executing);
    assert_eq!(o.run_state(1), RunState::Pending);
    let good = json_file_name(benchmark.label(0));
    assert_eq!(
        benchmark.command_line(0, &good),
        vec!["--runs", "2", "--command-name", "good", "--export-json", "good.json", "true"]
    );

    assert_eq!(o.step(Event::RunSucceeded(good.clone())), Some(Action::Execute(1)));
    assert_eq!(o.run_state(0), RunState::Succeeded("good.json".to_string()));
    assert_eq!(o.run_state(1), RunState::Executing);

    let files = match o.step(Event::RunFailed("exit status 1".to_string())) {
        Some(Action::Merge(files)) => files,
        other => panic!("unexpected action {:?}", other),
    };
    assert_eq!(files, vec!["good.json".to_string()]);
    assert_eq!(o.run_state(1), RunState::Failed("exit status 1".to_string()));
    assert_eq!(o.phase(), Phase::Merging);

    let report = "{\"results\": [{\"command\": \"good\", \"mean\": 1.0}]}".to_string();
    let merged = merge_json_files(&[report]).unwrap();
    let results = merged["results"].as_array().unwrap();
    assert_eq!(results.len(), 1);
    assert_eq!(results[0]["command"], "good");

    assert_eq!(o.step(Event::Merged), Some(Action::Restore("main".to_string())));
    assert_eq!(o.step(Event::Restored), Some(Action::Finish(Verdict::Success)));
    assert_eq!(o.phase(), Phase::Done(Verdict::Success));
    assert_eq!(Verdict::Success.exit_code(), 0);
}

#[test]
fn no_run_succeeds() {
    let mut o = Orchestrator::new(2, "abc1234".to_string());
    assert_eq!(o.step(Event::Start), Some(Action::Execute(0)));
    assert_eq!(o.step(Event::RunFailed("a".to_string())), Some(Action::Execute(1)));
    assert_eq!(
        o.step(Event::RunFailed("b".to_string())),
        Some(Action::Restore("abc1234".to_string()))
    );
    assert_eq!(o.phase(), Phase::Restoring(Verdict::NoSuccessfulRuns));
    assert_eq!(o.step(Event::Restored), Some(Action::Finish(Verdict::NoSuccessfulRuns)));
    assert_ne!(Verdict::NoSuccessfulRuns.exit_code(), 0);
}

#[test]
fn no_runs_at_all() {
    let mut o = Orchestrator::new(0, "main".to_string());
    assert_eq!(o.step(Event::Start), Some(Action::Restore("main".to_string())));
    assert_eq!(o.step(Event::Restored), Some(Action::Finish(Verdict::NoSuccessfulRuns)));
}

#[test]
fn every_run_succeeds() {
    let mut o = Orchestrator::new(3, "main".to_string());
    assert_eq!(o.step(Event::Start), Some(Action::Execute(0)));
    assert_eq!(o.step(Event::RunSucceeded("a".to_string())), Some(Action::Execute(1)));
    assert_eq!(o.step(Event::RunSucceeded("b".to_string())), Some(Action::Execute(2)));
    assert_eq!(
        o.step(Event::RunSucceeded("c".to_string())),
        Some(Action::Merge(vec!["a".to_string(), "b".to_string(), "c".to_string()]))
    );
}

#[test]
fn failed_merge_still_restores() {
    let mut o = Orchestrator::new(1, "main".to_string());
    assert_eq!(o.step(Event::Start), Some(Action::Execute(0)));
    assert_eq!(
        o.step(Event::RunSucceeded("a".to_string())),
        Some(Action::Merge(vec!["a".to_string()]))
    );
    assert_eq!(o.step(Event::MergeFailed), Some(Action::Restore("main".to_string())));
    assert_eq!(o.step(Event::Restored), Some(Action::Finish(Verdict::MergeFailed)));
    assert_eq!(Verdict::MergeFailed.exit_code(), 1);
}

#[test]
fn aborted_run_still_restores() {
    let mut o = Orchestrator::new(2, "main".to_string());
    assert_eq!(o.step(Event::Start), Some(Action::Execute(0)));
    assert_eq!(o.step(Event::RunSucceeded("a".to_string())), Some(Action::Execute(1)));
    assert_eq!(o.step(Event::Aborted), Some(Action::Restore("main".to_string())));
    assert_eq!(o.run_state(1), RunState::Pending);
    assert_eq!(o.step(Event::Restored), Some(Action::Finish(Verdict::Aborted)));
    assert_eq!(Verdict::Aborted.exit_code(), 1);
}

#[test]
fn event_out_of_turn_changes_nothing() {
    let mut o = Orchestrator::new(1, "main".to_string());
    assert_eq!(o.step(Event::Merged), None);
    assert_eq!(o.step(Event::RunSucceeded("a".to_string())), None);
    assert_eq!(o.step(Event::Restored), None);
    assert_eq!(o.step(Event::Aborted), None);
    assert_eq!(o.phase(), Phase::Fresh);
    assert_eq!(o.step(Event::Start), Some(Action::Execute(0)));
    assert_eq!(o.step(Event::Start), None);
    assert_eq!(o.step(Event::MergeFailed), None);
    assert_eq!(o.phase(), Phase::Running);
    assert_eq!(o.run_state(0), RunState::Executing);
}

#[test]
fn nothing_follows_the_end() {
    let mut o = Orchestrator::new(0, "main".to_string());
    o.step(Event::Start);
    o.step(Event::Restored);
    assert_eq!(o.step(Event::Start), None);
    assert_eq!(o.step(Event::Restored), None);
    assert_eq!(o.phase(), Phase::Done(Verdict::NoSuccessfulRuns));
}

#[test]
fn preflight_errors() {
    assert_eq!(hyperfine_installed(true), Ok(()));
    assert_eq!(hyperfine_installed(false), Err(PreflightError::ToolMissing));
    assert_eq!(is_git_dirty(true), Ok(()));
    assert_eq!(is_git_dirty(false), Err(PreflightError::DirtyTree));
    assert_eq!(PreflightError::ToolMissing.message(), "Hyperfine not installed");
    assert_eq!(PreflightError::DirtyTree.message(), "Git is dirty");
}
