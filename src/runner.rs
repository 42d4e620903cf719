//! Planning of the two external script runs, and normalisation of what a
//! run produced. The host performs the run that a plan describes.
use vstd::prelude::*;
use crate::text::{decode_lossy, lossy_text};

verus! {

/// The answers file a ship run uses when no override is given.
pub const DEFAULT_ANSWERS_FILE: &'static str = "answers.json";

/// The answers file a ship run falls back to in continuous integration.
pub const CI_ANSWERS_FILE: &'static str = "answers.ci.json";

/// The project script that a run invokes.
#[derive(Clone, Copy, Debug, PartialEq, Eq, Structural)]
pub enum Script {
    Ship,
    Start,
}

pub open spec fn script_name(s: Script) -> Seq<char> {
    match s {
        Script::Ship => "ship"@,
        Script::Start => "start"@,
    }
}

impl Script {
    /// The name under which the script runner knows the script.
    pub fn name(&self) -> (r: &'static str)
        ensures
            r@ == script_name(*self),
    {
        match self {
            Script::Ship => "ship",
            Script::Start => "start",
        }
    }
}

/// Why a run was not carried out.
#[derive(Clone, Debug, PartialEq, Eq)]
pub enum RunError {
    /// The working directory could not be resolved; holds the reason.
    NoWorkingDirectory(String),
    /// The directory holds no workspace marker.
    WorkspaceInvalid,
    /// The tool runtime could not be invoked.
    ToolUnavailable,
    /// No override was given and neither answers file is present.
    NoAnswersFile,
    /// The script runner could not be started; holds the reason.
    SpawnFailed(Script, String),
}

pub open spec fn run_error_text(e: RunError) -> Seq<char> {
    match e {
        RunError::NoWorkingDirectory(why) => "Cannot get current directory: "@ + why@,
        RunError::WorkspaceInvalid => "Invalid workspace: package.json not found"@,
        RunError::ToolUnavailable =>
            "Node.js not available. Please install Node.js and ensure it's in your PATH"@,
        RunError::NoAnswersFile => "No answers file found. Please run the questionnaire first"@,
        RunError::SpawnFailed(s, why) => "Failed to execute npm run "@ + script_name(s) + ": "@
            + why@,
    }
}

impl RunError {
    /// The human-readable text of the error.
    pub fn message(&self) -> (r: String)
        ensures
            r@ == run_error_text(*self),
    {
        match self {
            RunError::NoWorkingDirectory(why) => {
                let r = String::from_str("Cannot get current directory: ");
                r.concat(why.as_str())
            },
            RunError::WorkspaceInvalid => String::from_str(
                "Invalid workspace: package.json not found",
            ),
            RunError::ToolUnavailable => String::from_str(
                "Node.js not available. Please install Node.js and ensure it's in your PATH",
            ),
            RunError::NoAnswersFile => String::from_str(
                "No answers file found. Please run the questionnaire first",
            ),
            RunError::SpawnFailed(s, why) => {
                let r = String::from_str("Failed to execute npm run ");
                let r = r.concat(s.name());
                let r = r.concat(": ");
                r.concat(why.as_str())
            },
        }
    }
}

/// The normalised result of one external run.
#[derive(Clone, Debug, PartialEq, Eq)]
pub struct ProcessOutcome {
    pub success: bool,
    pub exit_code: Option<i32>,
    pub stdout: String,
    pub stderr: String,
}

/// What the host captured from a finished process: its exit code, absent
/// when the process reported none, and its two output streams as bytes.
#[derive(Clone, Debug)]
pub struct RawOutput {
    pub exit_code: Option<i32>,
    pub stdout: Vec<u8>,
    pub stderr: Vec<u8>,
}

/// A run succeeded exactly when it reported exit code 0.
pub open spec fn succeeded(code: Option<i32>) -> bool {
    code == Some(0i32)
}

/// Builds the outcome of a run from its exit code and its decoded output.
pub fn outcome_from_text(exit_code: Option<i32>, stdout: String, stderr: String) -> (r:
    ProcessOutcome)
    ensures
        r.success == succeeded(exit_code),
        r.exit_code == exit_code,
        r.stdout@ == stdout@,
        r.stderr@ == stderr@,
{
    let success = match exit_code {
        Some(c) => c == 0,
        None => false,
    };
    ProcessOutcome { success, exit_code, stdout, stderr }
}

/// Builds the outcome of a run from what the host captured, decoding both
/// streams leniently.
pub fn outcome_from_output(raw: &RawOutput) -> (r: ProcessOutcome)
    ensures
        r.success == succeeded(raw.exit_code),
        r.exit_code == raw.exit_code,
        r.stdout@ == lossy_text(raw.stdout@),
        r.stderr@ == lossy_text(raw.stderr@),
{
    let stdout = decode_lossy(raw.stdout.as_slice());
    let stderr = decode_lossy(raw.stderr.as_slice());
    outcome_from_text(raw.exit_code, stdout, stderr)
}

/// Turns the host's attempt to run `script` into the call's result: a
/// process that could not be started is an error, any finished process,
/// whatever its exit code, an outcome.
pub fn finish_run(script: Script, spawned: Result<RawOutput, String>) -> (r: Result<
    ProcessOutcome,
    RunError,
>)
    ensures
        match spawned {
            Ok(raw) => match r {
                Ok(o) => o.success == succeeded(raw.exit_code) && o.exit_code == raw.exit_code
                    && o.stdout@ == lossy_text(raw.stdout@) && o.stderr@ == lossy_text(
                    raw.stderr@,
                ),
                Err(_) => false,
            },
            Err(why) => r == Err::<ProcessOutcome, RunError>(RunError::SpawnFailed(script, why)),
        },
{
    match spawned {
        Ok(raw) => Ok(outcome_from_output(&raw)),
        Err(why) => Err(RunError::SpawnFailed(script, why)),
    }
}

/// A command line for the script runner, to be run in the workspace root.
#[derive(Clone, Debug, PartialEq, Eq)]
pub struct Invocation {
    pub program: String,
    pub args: Vec<String>,
}

impl View for Invocation {
    type V = (Seq<char>, Seq<Seq<char>>);

    open spec fn view(&self) -> (Seq<char>, Seq<Seq<char>>) {
        (self.program@, self.args@.map_values(|a: String| a@))
    }
}

/// What the host observed before a ship run.
#[derive(Clone, Copy, Debug, PartialEq, Eq, Structural)]
pub struct ShipContext {
    pub has_marker: bool,
    pub tool_available: bool,
    pub has_answers_file: bool,
    pub has_ci_answers_file: bool,
}

pub open spec fn opt_view(o: Option<String>) -> Option<Seq<char>> {
    match o {
        Some(s) => Some(s@),
        None => None,
    }
}

/// The answers argument: the override if given, else the default answers
/// file, else the CI answers file, else none.
pub open spec fn answers_arg(over: Option<Seq<char>>, has_default: bool, has_ci: bool) -> Option<
    Seq<char>,
> {
    match over {
        Some(p) => Some("--answers="@ + p),
        None => if has_default {
            Some("--answers=answers.json"@)
        } else if has_ci {
            Some("--answers=answers.ci.json"@)
        } else {
            None
        },
    }
}

/// The script runner's command line for `script`, with extra arguments.
pub open spec fn runner_line(script: Script, extra: Seq<Seq<char>>) -> (Seq<char>, Seq<Seq<char>>) {
    ("npm"@, seq!["run"@, script_name(script)] + extra)
}

/// The decision for a ship run: the workspace marker is checked first, the
/// tool second, and the answers file last.
pub open spec fn ship_plan(ctx: ShipContext, over: Option<Seq<char>>) -> Result<
    (Seq<char>, Seq<Seq<char>>),
    RunError,
> {
    if !ctx.has_marker {
        Err(RunError::WorkspaceInvalid)
    } else if !ctx.tool_available {
        Err(RunError::ToolUnavailable)
    } else {
        match answers_arg(over, ctx.has_answers_file, ctx.has_ci_answers_file) {
            Some(a) => Ok(runner_line(Script::Ship, seq!["--"@, a])),
            None => Err(RunError::NoAnswersFile),
        }
    }
}

/// The decision for a questionnaire run: only the workspace marker is checked.
pub open spec fn questionnaire_plan(has_marker: bool) -> Result<
    (Seq<char>, Seq<Seq<char>>),
    RunError,
> {
    if !has_marker {
        Err(RunError::WorkspaceInvalid)
    } else {
        Ok(runner_line(Script::Start, Seq::empty()))
    }
}

pub open spec fn plan_view(r: Result<Invocation, RunError>) -> Result<
    (Seq<char>, Seq<Seq<char>>),
    RunError,
> {
    match r {
        Ok(i) => Ok(i@),
        Err(e) => Err(e),
    }
}

/// Picks the answers argument for a ship run.
pub fn resolve_answers_arg(answers_file: Option<String>, has_default: bool, has_ci: bool) -> (r:
    Option<String>)
    ensures
        opt_view(r) == answers_arg(opt_view(answers_file), has_default, has_ci),
{
    match answers_file {
        Some(file) => Some(String::from_str("--answers=").concat(file.as_str())),
        None => if has_default {
            Some(String::from_str("--answers=answers.json"))
        } else if has_ci {
            Some(String::from_str("--answers=answers.ci.json"))
        } else {
            None
        },
    }
}

fn runner_invocation(script: Script, extra: Vec<String>) -> (r: Invocation)
    ensures
        r@ == runner_line(script, extra@.map_values(|a: String| a@)),
{
    let ghost given = extra@;
    let mut extra = extra;
    let mut args: Vec<String> = Vec::new();
    args.push(String::from_str("run"));
    args.push(String::from_str(script.name()));
    args.append(&mut extra);
    let r = Invocation { program: String::from_str("npm"), args };
    assert(r@.1 =~= runner_line(script, given.map_values(|a: String| a@)).1);
    r
}

/// Decides whether a ship run may go ahead and, if so, with which command
/// line; on an error no process is to be started.
pub fn plan_ship_pipeline(ctx: ShipContext, answers_file: Option<String>) -> (r: Result<
    Invocation,
    RunError,
>)
    ensures
        plan_view(r) == ship_plan(ctx, opt_view(answers_file)),
{
    if !ctx.has_marker {
        return Err(RunError::WorkspaceInvalid);
    }
    if !ctx.tool_available {
        return Err(RunError::ToolUnavailable);
    }
    match resolve_answers_arg(answers_file, ctx.has_answers_file, ctx.has_ci_answers_file) {
        Some(a) => {
            let extra = vec![String::from_str("--"), a];
            let ghost a_view = extra@[1]@;
            assert(extra@.map_values(|x: String| x@) =~= seq!["--"@, a_view]);
            Ok(runner_invocation(Script::Ship, extra))
        },
        None => Err(RunError::NoAnswersFile),
    }
}

/// Decides whether a questionnaire run may go ahead and, if so, with which
/// command line; on an error no process is to be started.
pub fn plan_questionnaire(has_marker: bool) -> (r: Result<Invocation, RunError>)
    ensures
        plan_view(r) == questionnaire_plan(has_marker),
{
    if !has_marker {
        return Err(RunError::WorkspaceInvalid);
    }
    let extra: Vec<String> = Vec::new();
    assert(extra@.map_values(|x: String| x@) =~= Seq::<Seq<char>>::empty());
    Ok(runner_invocation(Script::Start, extra))
}

/// Without an override, a ship run in a workspace that holds both answers
/// files uses the default one.
pub proof fn lemma_default_answers_preferred(ctx: ShipContext)
    requires
        ctx.has_marker,
        ctx.tool_available,
        ctx.has_answers_file,
        ctx.has_ci_answers_file,
    ensures
        ship_plan(ctx, None) == Ok::<(Seq<char>, Seq<Seq<char>>), RunError>(
            runner_line(Script::Ship, seq!["--"@, "--answers=answers.json"@]),
        ),
{
}

/// Without an override and without either answers file a ship run is
/// refused with `NoAnswersFile`, so no process is started.
pub proof fn lemma_no_answers_file(ctx: ShipContext)
    requires
        ctx.has_marker,
        ctx.tool_available,
        !ctx.has_answers_file,
        !ctx.has_ci_answers_file,
    ensures
        ship_plan(ctx, None) == Err::<(Seq<char>, Seq<Seq<char>>), RunError>(
            RunError::NoAnswersFile,
        ),
{
}

/// In a directory without the workspace marker both runs are refused with
/// `WorkspaceInvalid`, whatever else holds, so no process is started.
pub proof fn lemma_unmarked_workspace_refused(ctx: ShipContext, over: Option<Seq<char>>)
    requires
        !ctx.has_marker,
    ensures
        ship_plan(ctx, over) == Err::<(Seq<char>, Seq<Seq<char>>), RunError>(
            RunError::WorkspaceInvalid,
        ),
        questionnaire_plan(ctx.has_marker) == Err::<(Seq<char>, Seq<Seq<char>>), RunError>(
            RunError::WorkspaceInvalid,
        ),
{
}

} // verus!
