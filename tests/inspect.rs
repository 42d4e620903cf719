use ship_launcher::{
    check_environment, required_files, version_text, IssueKind, RequiredFile, Status,
    WorkspaceFacts, DEPENDENCY_DIR, MARKER_FILE,
};

fn complete() -> WorkspaceFacts {
    WorkspaceFacts {
        tool_version: Some("v18.19.0".to_string()),
        working_directory: "/work/site".to_string(),
        has_marker: true,
        has_ship_script: true,
        has_agents_file: true,
        has_answers_file: true,
        has_dependencies: true,
    }
}

fn kinds(facts: WorkspaceFacts) -> Vec<IssueKind> {
    check_environment(facts).issues.iter().map(|i| i.kind).collect()
}

#[test]
fn complete_workspace_is_healthy() {
    let r = check_environment(complete());
    assert_eq!(r.status, Status::Healthy);
    assert!(r.issues.is_empty());
    assert_eq!(r.tool_version, "v18.19.0");
    assert!(r.workspace_valid);
    assert!(r.dependencies_installed);
    assert_eq!(r.working_directory, "/work/site");
    assert_eq!(r.status.as_str(), "ok");
}

#[test]
fn missing_dependencies_alone_is_one_warning() {
    let mut f = complete();
    f.has_dependencies = false;
    let r = check_environment(f);
    assert_eq!(r.status, Status::Warning);
    assert_eq!(r.issues.len(), 1);
    assert_eq!(r.issues[0].kind, IssueKind::DependenciesMissing);
    assert_eq!(
        r.issues[0].message(),
        "Dependencies not installed. Run 'npm install' first"
    );
    assert!(!r.dependencies_installed);
    assert_eq!(r.status.as_str(), "warning");
}

#[test]
fn missing_dependencies_keeps_error() {
    let mut f = complete();
    f.tool_version = None;
    f.has_dependencies = false;
    let r = check_environment(f);
    assert_eq!(r.status, Status::Error);
    assert_eq!(r.issues.len(), 2);
}

#[test]
fn missing_tool_is_error_in_complete_workspace() {
    let mut f = complete();
    f.tool_version = None;
    let r = check_environment(f);
    assert_eq!(r.status, Status::Error);
    assert_eq!(r.tool_version, "not_found");
    assert_eq!(r.issues.len(), 1);
    assert_eq!(r.issues[0].kind, IssueKind::ToolMissing);
    assert_eq!(
        r.issues[0].message(),
        "Node.js not found in PATH. Please install Node.js 18+"
    );
    assert_eq!(r.status.as_str(), "error");
}

#[test]
fn missing_tool_is_error_in_empty_directory() {
    let f = WorkspaceFacts {
        tool_version: None,
        working_directory: "/tmp/empty".to_string(),
        has_marker: false,
        has_ship_script: false,
        has_agents_file: false,
        has_answers_file: false,
        has_dependencies: false,
    };
    let r = check_environment(f);
    assert_eq!(r.status, Status::Error);
    assert!(!r.workspace_valid);
}

#[test]
fn missing_marker_is_warning() {
    let mut f = complete();
    f.has_marker = false;
    let r = check_environment(f);
    assert_eq!(r.status, Status::Warning);
    assert!(!r.workspace_valid);
    assert_eq!(r.issues.len(), 1);
    assert_eq!(
        r.issues[0].message(),
        "Invalid workspace: package.json not found"
    );
}

#[test]
fn missing_files_are_one_combined_issue() {
    let mut f = complete();
    f.has_ship_script = false;
    f.has_answers_file = false;
    let r = check_environment(f);
    assert_eq!(r.status, Status::Warning);
    assert_eq!(r.issues.len(), 1);
    assert_eq!(r.issues[0].kind, IssueKind::FilesMissing);
    assert_eq!(
        r.issues[0].missing,
        vec![RequiredFile::ShipScript, RequiredFile::AnswersFile]
    );
    assert_eq!(
        r.issues[0].message(),
        "Missing files: scripts/ship.js, answers.json"
    );
}

#[test]
fn all_required_files_missing_message() {
    let mut f = complete();
    f.has_ship_script = false;
    f.has_agents_file = false;
    f.has_answers_file = false;
    let r = check_environment(f);
    assert_eq!(
        r.issues[0].message(),
        "Missing files: scripts/ship.js, AGENTS.md, answers.json"
    );
}

#[test]
fn issues_follow_check_order() {
    let f = WorkspaceFacts {
        tool_version: None,
        working_directory: "/tmp/empty".to_string(),
        has_marker: false,
        has_ship_script: true,
        has_agents_file: false,
        has_answers_file: true,
        has_dependencies: false,
    };
    assert_eq!(
        kinds(f),
        vec![
            IssueKind::ToolMissing,
            IssueKind::MarkerMissing,
            IssueKind::FilesMissing,
            IssueKind::DependenciesMissing
        ]
    );
    let mut g = complete();
    g.has_marker = false;
    g.has_dependencies = false;
    assert_eq!(
        kinds(g),
        vec![IssueKind::MarkerMissing, IssueKind::DependenciesMissing]
    );
}

#[test]
fn required_files_in_check_order() {
    let paths: Vec<&str> = required_files().iter().map(|f| f.path()).collect();
    assert_eq!(paths, vec!["scripts/ship.js", "AGENTS.md", "answers.json"]);
    assert_eq!(MARKER_FILE, "package.json");
    assert_eq!(DEPENDENCY_DIR, "node_modules");
    assert_eq!(ship_launcher::DEFAULT_ANSWERS_FILE, "answers.json");
    assert_eq!(ship_launcher::CI_ANSWERS_FILE, "answers.ci.json");
}

#[test]
fn version_text_is_trimmed() {
    assert_eq!(version_text(b"  v18.19.0\n"), "v18.19.0");
    assert_eq!(version_text(b""), "");
}

#[test]
fn version_text_replaces_invalid_bytes() {
    assert_eq!(version_text(b"v20\xff\n"), "v20\u{FFFD}");
}
