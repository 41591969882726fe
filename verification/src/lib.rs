//! Timing one or more commands on a set of revisions of a repository.
//!
//! The library resolves the commits that a run names ([`commits`], against
//! a [`catalog`] of what the repository holds), writes the arguments with
//! which the timing tool is called for a run ([`params`], with the
//! [`annotations`] of its report), says in which order runs, merge and the
//! restoring of the working tree follow each other ([`orchestrate`]), and
//! merges the reports of the runs into one ([`merge`]).
//!
//! It starts no process and touches no file: it is handed what the
//! version control system and the timing tool answered, and hands back
//! what to ask next.
pub mod annotations;
pub mod catalog;
pub mod commits;
pub mod json;
pub mod merge;
pub mod orchestrate;
pub mod params;
pub mod stdx;
pub mod text;

pub use annotations::{annotate, generate_jq_cmd, Annotations};
pub use catalog::{checkout, get_current_branch_or_id, queries_for, Head, Query, RevisionCatalog};
pub use commits::{
    check_correctness_of_commit_ids, check_validity_of_commit_ids, commit_spec, from_commit,
    range_argument, CommitError, CommitSpec, Commits,
};
pub use merge::{
    merge_json_files, move_commit_label_to_cmd_name, report_text, Flaw, MergeError,
};
pub use orchestrate::{
    hyperfine_installed, is_git_dirty, Action, Event, Orchestrator, Phase, PreflightError,
    RunState, Verdict,
};
pub use params::{json_file_name, Benchmark, Hyperfined, Run};
pub use text::{to_string, trim_newline};
