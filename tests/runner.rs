use ship_launcher::{
    finish_run, outcome_from_output, outcome_from_text, plan_questionnaire, plan_ship_pipeline,
    resolve_answers_arg, RawOutput, RunError, Script, ShipContext,
};

fn ready() -> ShipContext {
    ShipContext {
        has_marker: true,
        tool_available: true,
        has_answers_file: true,
        has_ci_answers_file: true,
    }
}

fn args_of(ctx: ShipContext, over: Option<&str>) -> Vec<String> {
    plan_ship_pipeline(ctx, over.map(|s| s.to_string()))
        .expect("plan")
        .args
}

#[test]
fn ship_prefers_default_answers() {
    let inv = plan_ship_pipeline(ready(), None).expect("plan");
    assert_eq!(inv.program, "npm");
    assert_eq!(inv.args, vec!["run", "ship", "--", "--answers=answers.json"]);
}

#[test]
fn ship_falls_back_to_ci_answers() {
    let mut ctx = ready();
    ctx.has_answers_file = false;
    assert_eq!(
        args_of(ctx, None),
        vec!["run", "ship", "--", "--answers=answers.ci.json"]
    );
}

#[test]
fn ship_uses_override_first() {
    let mut ctx = ready();
    ctx.has_answers_file = false;
    ctx.has_ci_answers_file = false;
    assert_eq!(
        args_of(ctx, Some("custom/a.json")),
        vec!["run", "ship", "--", "--answers=custom/a.json"]
    );
}

#[test]
fn ship_without_answers_file_is_refused() {
    let mut ctx = ready();
    ctx.has_answers_file = false;
    ctx.has_ci_answers_file = false;
    let e = plan_ship_pipeline(ctx, None).unwrap_err();
    assert_eq!(e, RunError::NoAnswersFile);
    assert_eq!(
        e.message(),
        "No answers file found. Please run the questionnaire first"
    );
}

#[test]
fn ship_without_tool_is_refused() {
    let mut ctx = ready();
    ctx.tool_available = false;
    let e = plan_ship_pipeline(ctx, Some("a.json".to_string())).unwrap_err();
    assert_eq!(e, RunError::ToolUnavailable);
    assert_eq!(
        e.message(),
        "Node.js not available. Please install Node.js and ensure it's in your PATH"
    );
}

#[test]
fn unmarked_workspace_refuses_both_runs() {
    let mut ctx = ready();
    ctx.has_marker = false;
    ctx.tool_available = false;
    let e = plan_ship_pipeline(ctx, None).unwrap_err();
    assert_eq!(e, RunError::WorkspaceInvalid);
    assert_eq!(e.message(), "Invalid workspace: package.json not found");
    assert_eq!(plan_questionnaire(false).unwrap_err(), RunError::WorkspaceInvalid);
}

#[test]
fn questionnaire_runs_start_script() {
    let inv = plan_questionnaire(true).expect("plan");
    assert_eq!(inv.program, "npm");
    assert_eq!(inv.args, vec!["run", "start"]);
}

#[test]
fn answers_argument_resolution() {
    assert_eq!(
        resolve_answers_arg(Some("x.json".to_string()), true, true),
        Some("--answers=x.json".to_string())
    );
    assert_eq!(
        resolve_answers_arg(None, false, true),
        Some("--answers=answers.ci.json".to_string())
    );
    assert_eq!(resolve_answers_arg(None, false, false), None);
}

#[test]
fn exit_code_three_is_an_unsuccessful_outcome() {
    let raw = RawOutput {
        exit_code: Some(3),
        stdout: Vec::new(),
        stderr: b"boom: pipeline failed\n".to_vec(),
    };
    let o = finish_run(Script::Ship, Ok(raw)).expect("outcome");
    assert!(!o.success);
    assert_eq!(o.exit_code, Some(3));
    assert_eq!(o.stderr, "boom: pipeline failed\n");
    assert_eq!(o.stdout, "");
}

#[test]
fn exit_code_zero_is_success() {
    let o = outcome_from_text(Some(0), "done".to_string(), String::new());
    assert!(o.success);
    assert_eq!(o.exit_code, Some(0));
    assert_eq!(o.stdout, "done");
}

#[test]
fn missing_exit_code_is_failure() {
    let o = outcome_from_text(None, String::new(), String::new());
    assert!(!o.success);
    assert_eq!(o.exit_code, None);
}

#[test]
fn output_bytes_are_decoded_leniently() {
    let raw = RawOutput {
        exit_code: Some(1),
        stdout: b"ok\xfe".to_vec(),
        stderr: b"caf\xc3\xa9".to_vec(),
    };
    let o = outcome_from_output(&raw);
    assert_eq!(o.stdout, "ok\u{FFFD}");
    assert_eq!(o.stderr, "caf\u{e9}");
    assert!(!o.success);
}

#[test]
fn spawn_failure_is_an_error() {
    let e = finish_run(Script::Start, Err("No such file or directory".to_string())).unwrap_err();
    assert_eq!(
        e,
        RunError::SpawnFailed(Script::Start, "No such file or directory".to_string())
    );
    assert_eq!(
        e.message(),
        "Failed to execute npm run start: No such file or directory"
    );
}

#[test]
fn working_directory_error_message() {
    let e = RunError::NoWorkingDirectory("gone".to_string());
    assert_eq!(e.message(), "Cannot get current directory: gone");
}
