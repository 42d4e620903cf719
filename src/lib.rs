//! Workspace validation and script-pipeline orchestration for a desktop
//! launcher: the decisions are made here over plain values, while the host
//! probes the file system and runs the external processes.
use vstd::prelude::*;

pub mod inspect;
pub mod runner;
pub mod text;

pub use inspect::{
    check_environment, required_files, EnvironmentReport, Issue, IssueKind, RequiredFile, Status,
    WorkspaceFacts, DEPENDENCY_DIR, MARKER_FILE,
};
pub use runner::{
    finish_run, outcome_from_output, outcome_from_text, plan_questionnaire, plan_ship_pipeline,
    resolve_answers_arg, Invocation, CI_ANSWERS_FILE, DEFAULT_ANSWERS_FILE, ProcessOutcome, RawOutput, RunError, Script, ShipContext,
};
pub use text::version_text;

verus! {

} // verus!
