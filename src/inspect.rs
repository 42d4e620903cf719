//! Diagnosis of a workspace: from what the host found on disk and in the
//! tool runtime to a report with an aggregate status and ordered issues.
use vstd::prelude::*;

verus! {

/// The file whose presence marks a directory as a workspace.
pub const MARKER_FILE: &'static str = "package.json";

/// The directory whose presence shows that dependencies are installed.
pub const DEPENDENCY_DIR: &'static str = "node_modules";

/// Aggregate status of a report; `Healthy < Warning < Error` in severity.
#[derive(Clone, Copy, Debug, PartialEq, Eq, Structural)]
pub enum Status {
    Healthy,
    Warning,
    Error,
}

/// Severity rank of a status, used to state that escalation never goes down.
pub open spec fn severity(s: Status) -> int {
    match s {
        Status::Healthy => 0,
        Status::Warning => 1,
        Status::Error => 2,
    }
}

impl Status {
    /// The lower-case name under which the status is reported.
    pub fn as_str(&self) -> (r: &'static str)
        ensures
            r@ == status_name(*self),
    {
        match self {
            Status::Healthy => "ok",
            Status::Warning => "warning",
            Status::Error => "error",
        }
    }
}

pub open spec fn status_name(s: Status) -> Seq<char> {
    match s {
        Status::Healthy => "ok"@,
        Status::Warning => "warning"@,
        Status::Error => "error"@,
    }
}

/// A file that every workspace must hold, relative to its root.
#[derive(Clone, Copy, Debug, PartialEq, Eq, Structural)]
pub enum RequiredFile {
    ShipScript,
    AgentsFile,
    AnswersFile,
}

pub open spec fn required_path(f: RequiredFile) -> Seq<char> {
    match f {
        RequiredFile::ShipScript => "scripts/ship.js"@,
        RequiredFile::AgentsFile => "AGENTS.md"@,
        RequiredFile::AnswersFile => "answers.json"@,
    }
}

impl RequiredFile {
    /// The path of the file relative to the workspace root.
    pub fn path(&self) -> (r: &'static str)
        ensures
            r@ == required_path(*self),
    {
        match self {
            RequiredFile::ShipScript => "scripts/ship.js",
            RequiredFile::AgentsFile => "AGENTS.md",
            RequiredFile::AnswersFile => "answers.json",
        }
    }
}

/// The required files, in the order in which they are checked.
pub open spec fn required_order() -> Seq<RequiredFile> {
    seq![RequiredFile::ShipScript, RequiredFile::AgentsFile, RequiredFile::AnswersFile]
}

pub fn required_files() -> (r: Vec<RequiredFile>)
    ensures
        r@ == required_order(),
{
    let r = vec![RequiredFile::ShipScript, RequiredFile::AgentsFile, RequiredFile::AnswersFile];
    assert(r@ =~= required_order());
    r
}

/// What the host observed about a workspace and the tool runtime.
#[derive(Clone, Debug)]
pub struct WorkspaceFacts {
    /// The version text the tool printed, or `None` when it could not be run.
    pub tool_version: Option<String>,
    pub working_directory: String,
    pub has_marker: bool,
    pub has_ship_script: bool,
    pub has_agents_file: bool,
    pub has_answers_file: bool,
    pub has_dependencies: bool,
}

pub open spec fn has_required(f: WorkspaceFacts, r: RequiredFile) -> bool {
    match r {
        RequiredFile::ShipScript => f.has_ship_script,
        RequiredFile::AgentsFile => f.has_agents_file,
        RequiredFile::AnswersFile => f.has_answers_file,
    }
}

/// The required files that are absent, in check order.
pub open spec fn missing_files(f: WorkspaceFacts) -> Seq<RequiredFile> {
    let s0: Seq<RequiredFile> = Seq::empty();
    let s1 = if !f.has_ship_script { s0.push(RequiredFile::ShipScript) } else { s0 };
    let s2 = if !f.has_agents_file { s1.push(RequiredFile::AgentsFile) } else { s1 };
    if !f.has_answers_file { s2.push(RequiredFile::AnswersFile) } else { s2 }
}

/// The predicate that holds of the required files absent from `f`.
pub open spec fn absent_in(f: WorkspaceFacts) -> spec_fn(RequiredFile) -> bool {
    |r: RequiredFile| !has_required(f, r)
}

/// The kind of a deficiency found in a workspace.
#[derive(Clone, Copy, Debug, PartialEq, Eq, Structural)]
pub enum IssueKind {
    ToolMissing,
    MarkerMissing,
    FilesMissing,
    DependenciesMissing,
}

/// Position of each kind in the check order.
pub open spec fn check_rank(k: IssueKind) -> int {
    match k {
        IssueKind::ToolMissing => 0,
        IssueKind::MarkerMissing => 1,
        IssueKind::FilesMissing => 2,
        IssueKind::DependenciesMissing => 3,
    }
}

/// A deficiency: its kind, and for missing files the files, in check order.
#[derive(Clone, Debug, PartialEq, Eq)]
pub struct Issue {
    pub kind: IssueKind,
    pub missing: Vec<RequiredFile>,
}

impl View for Issue {
    type V = (IssueKind, Seq<RequiredFile>);

    open spec fn view(&self) -> (IssueKind, Seq<RequiredFile>) {
        (self.kind, self.missing@)
    }
}

pub open spec fn plain(k: IssueKind) -> (IssueKind, Seq<RequiredFile>) {
    (k, Seq::empty())
}

/// The issues a report must carry, in check order.
pub open spec fn expected_issues(f: WorkspaceFacts) -> Seq<(IssueKind, Seq<RequiredFile>)> {
    let s0: Seq<(IssueKind, Seq<RequiredFile>)> = Seq::empty();
    let s1 = if f.tool_version is None { s0.push(plain(IssueKind::ToolMissing)) } else { s0 };
    let s2 = if !f.has_marker { s1.push(plain(IssueKind::MarkerMissing)) } else { s1 };
    let s3 = if missing_files(f).len() > 0 {
        s2.push((IssueKind::FilesMissing, missing_files(f)))
    } else {
        s2
    };
    if !f.has_dependencies { s3.push(plain(IssueKind::DependenciesMissing)) } else { s3 }
}

/// `Error` exactly when the tool is missing, `Healthy` exactly when nothing was
/// found wrong, `Warning` otherwise.
pub open spec fn expected_status(f: WorkspaceFacts) -> Status {
    if f.tool_version is None {
        Status::Error
    } else if expected_issues(f).len() == 0 {
        Status::Healthy
    } else {
        Status::Warning
    }
}

/// The version text reported when the tool could not be run.
pub open spec fn reported_version(f: WorkspaceFacts) -> Seq<char> {
    match f.tool_version {
        Some(v) => v@,
        None => "not_found"@,
    }
}

/// The outcome of inspecting a workspace.
#[derive(Clone, Debug)]
pub struct EnvironmentReport {
    pub status: Status,
    pub tool_version: String,
    pub workspace_valid: bool,
    pub dependencies_installed: bool,
    pub working_directory: String,
    pub issues: Vec<Issue>,
}

pub open spec fn issue_views(v: Seq<Issue>) -> Seq<(IssueKind, Seq<RequiredFile>)> {
    v.map_values(|i: Issue| i@)
}

/// Raises `status` to at least `Warning`; an `Error` stays.
fn escalate(status: Status) -> (r: Status)
    ensures
        r == (if status == Status::Healthy { Status::Warning } else { status }),
{
    if status == Status::Healthy {
        Status::Warning
    } else {
        status
    }
}

/// The text under which an issue is shown to a user.
pub open spec fn issue_text(i: (IssueKind, Seq<RequiredFile>)) -> Seq<char> {
    match i.0 {
        IssueKind::ToolMissing => "Node.js not found in PATH. Please install Node.js 18+"@,
        IssueKind::MarkerMissing => "Invalid workspace: package.json not found"@,
        IssueKind::FilesMissing => "Missing files: "@ + joined_paths(i.1),
        IssueKind::DependenciesMissing => "Dependencies not installed. Run 'npm install' first"@,
    }
}

/// The paths of the files, joined by ", ".
pub open spec fn joined_paths(s: Seq<RequiredFile>) -> Seq<char>
    decreases s.len(),
{
    if s.len() == 0 {
        Seq::empty()
    } else if s.len() == 1 {
        required_path(s[0])
    } else {
        joined_paths(s.drop_last()) + ", "@ + required_path(s.last())
    }
}

impl Issue {
    /// Renders the issue as text for a user.
    pub fn message(&self) -> (r: String)
        ensures
            r@ == issue_text(self@),
    {
        match self.kind {
            IssueKind::ToolMissing => String::from_str(
                "Node.js not found in PATH. Please install Node.js 18+",
            ),
            IssueKind::MarkerMissing => String::from_str("Invalid workspace: package.json not found"),
            IssueKind::DependenciesMissing => String::from_str(
                "Dependencies not installed. Run 'npm install' first",
            ),
            IssueKind::FilesMissing => {
                let ghost head = "Missing files: "@;
                let mut r = String::from_str("Missing files: ");
                let mut i: usize = 0;
                while i < self.missing.len()
                    invariant
                        i <= self.missing@.len(),
                        head == "Missing files: "@,
                        r@ == head + joined_paths(self.missing@.subrange(0, i as int)),
                    decreases self.missing@.len() - i,
                {
                    let ghost before = r@;
                    let ghost s = self.missing@.subrange(0, i + 1);
                    if i > 0 {
                        r.append(", ");
                    }
                    r.append(self.missing[i].path());
                    proof {
                        assert(s.drop_last() =~= self.missing@.subrange(0, i as int));
                        if i > 0 {
                            assert(r@ =~= head + (joined_paths(s.drop_last()) + ", "@ + required_path(
                                s.last(),
                            )));
                        } else {
                            assert(r@ =~= head + required_path(s[0]));
                        }
                    }
                    i += 1;
                }
                assert(self.missing@.subrange(0, self.missing@.len() as int) =~= self.missing@);
                r
            },
        }
    }
}

/// Inspects a workspace from what the host observed: the tool check, the
/// workspace marker, the required files and the dependency directory, in that
/// order, each adding at most one issue and raising the status monotonically.
pub fn check_environment(facts: WorkspaceFacts) -> (r: EnvironmentReport)
    ensures
        r.status == expected_status(facts),
        r.tool_version@ == reported_version(facts),
        r.workspace_valid == facts.has_marker,
        r.dependencies_installed == facts.has_dependencies,
        r.working_directory@ == facts.working_directory@,
        r.issues@.len() == expected_issues(facts).len(),
        forall|k: int| 0 <= k < r.issues@.len() ==> #[trigger] r.issues@[k]@ == expected_issues(facts)[k],
{
    let ghost f = facts;
    let WorkspaceFacts {
        tool_version,
        working_directory,
        has_marker,
        has_ship_script,
        has_agents_file,
        has_answers_file,
        has_dependencies,
    } = facts;
    let mut issues: Vec<Issue> = Vec::new();
    let mut status = Status::Healthy;
    let tool_version = match tool_version {
        Some(v) => v,
        None => {
            issues.push(Issue { kind: IssueKind::ToolMissing, missing: Vec::new() });
            status = Status::Error;
            String::from_str("not_found")
        },
    };
    if !has_marker {
        issues.push(Issue { kind: IssueKind::MarkerMissing, missing: Vec::new() });
        status = escalate(status);
    }
    let order = required_files();
    let mut missing: Vec<RequiredFile> = Vec::new();
    let mut i: usize = 0;
    while i < order.len()
        invariant
            i <= order@.len(),
            order@ == required_order(),
            has_ship_script == f.has_ship_script,
            has_agents_file == f.has_agents_file,
            has_answers_file == f.has_answers_file,
            missing@ == order@.subrange(0, i as int).filter(absent_in(f)),
        decreases order@.len() - i,
    {
        let file = order[i];
        let present = match file {
            RequiredFile::ShipScript => has_ship_script,
            RequiredFile::AgentsFile => has_agents_file,
            RequiredFile::AnswersFile => has_answers_file,
        };
        assert(present == has_required(f, file));
        if !present {
            missing.push(file);
        }
        proof {
            reveal(Seq::filter);
            assert(order@.subrange(0, i + 1).drop_last() =~= order@.subrange(0, i as int));
        }
        i += 1;
    }
    assert(order@.subrange(0, order@.len() as int) =~= order@);
    proof {
        reveal_with_fuel(Seq::filter, 4);
        assert(required_order().drop_last() =~= seq![RequiredFile::ShipScript, RequiredFile::AgentsFile]);
        assert(required_order().drop_last().drop_last() =~= seq![RequiredFile::ShipScript]);
        assert(required_order().drop_last().drop_last().drop_last() =~= Seq::<RequiredFile>::empty());
        assert(missing@ =~= missing_files(f));
    }
    if missing.len() > 0 {
        issues.push(Issue { kind: IssueKind::FilesMissing, missing });
        status = escalate(status);
    }
    if !has_dependencies {
        issues.push(Issue { kind: IssueKind::DependenciesMissing, missing: Vec::new() });
        status = escalate(status);
    }
    assert(issue_views(issues@) =~= expected_issues(f));
    assert(issues@.len() == issue_views(issues@).len());
    assert forall|k: int| 0 <= k < issues@.len() implies #[trigger] issues@[k]@ == expected_issues(f)[k] by {
        assert(issue_views(issues@)[k] == issues@[k]@);
    }
    EnvironmentReport {
        status,
        tool_version,
        workspace_valid: has_marker,
        dependencies_installed: has_dependencies,
        working_directory,
        issues,
    }
}

/// A workspace with the tool available, the marker, every required file and
/// the dependencies present is reported healthy, with no issues.
pub proof fn lemma_complete_workspace_is_healthy(f: WorkspaceFacts)
    requires
        f.tool_version is Some,
        f.has_marker,
        f.has_ship_script,
        f.has_agents_file,
        f.has_answers_file,
        f.has_dependencies,
    ensures
        expected_status(f) == Status::Healthy,
        expected_issues(f).len() == 0,
{
}

/// A workspace that lacks only its dependencies gets a warning with exactly
/// one issue, the missing dependencies.
pub proof fn lemma_missing_dependencies_alone(f: WorkspaceFacts)
    requires
        f.tool_version is Some,
        f.has_marker,
        f.has_ship_script,
        f.has_agents_file,
        f.has_answers_file,
        !f.has_dependencies,
    ensures
        expected_status(f) == Status::Warning,
        expected_issues(f) == seq![plain(IssueKind::DependenciesMissing)],
{
    assert(expected_issues(f) =~= seq![plain(IssueKind::DependenciesMissing)]);
}

/// Removing the dependencies from a workspace never lowers the status: an
/// error stays an error.
pub proof fn lemma_removing_dependencies_never_downgrades(f: WorkspaceFacts, g: WorkspaceFacts)
    requires
        g.tool_version == f.tool_version,
        g.has_marker == f.has_marker,
        g.has_ship_script == f.has_ship_script,
        g.has_agents_file == f.has_agents_file,
        g.has_answers_file == f.has_answers_file,
        !g.has_dependencies,
    ensures
        severity(expected_status(g)) >= severity(expected_status(f)),
        expected_status(f) == Status::Error ==> expected_status(g) == Status::Error,
{
}

/// Without the tool runtime the status is an error, whatever else holds.
pub proof fn lemma_missing_tool_is_error(f: WorkspaceFacts)
    requires
        f.tool_version is None,
    ensures
        expected_status(f) == Status::Error,
{
}

/// The kinds in `s` strictly rise in check order, and all rank below `bound`.
pub open spec fn ranks_rise_below(s: Seq<(IssueKind, Seq<RequiredFile>)>, bound: int) -> bool {
    &&& forall|i: int, j: int|
        0 <= i < j < s.len() ==> check_rank(#[trigger] s[i].0) < check_rank(#[trigger] s[j].0)
    &&& forall|i: int| 0 <= i < s.len() ==> check_rank(#[trigger] s[i].0) < bound
}

proof fn lemma_push_keeps_rise(
    s: Seq<(IssueKind, Seq<RequiredFile>)>,
    bound: int,
    x: (IssueKind, Seq<RequiredFile>),
)
    requires
        ranks_rise_below(s, bound),
        check_rank(x.0) == bound,
    ensures
        ranks_rise_below(s.push(x), bound + 1),
{
    let t = s.push(x);
    assert forall|i: int, j: int| 0 <= i < j < t.len() implies check_rank(#[trigger] t[i].0)
        < check_rank(#[trigger] t[j].0) by {
        if j < s.len() {
            assert(t[i] == s[i] && t[j] == s[j]);
        } else {
            assert(t[i] == s[i]);
        }
    }
    assert forall|i: int| 0 <= i < t.len() implies check_rank(#[trigger] t[i].0) < bound + 1 by {
        if i < s.len() {
            assert(t[i] == s[i]);
        }
    }
}

proof fn lemma_rise_weakens(s: Seq<(IssueKind, Seq<RequiredFile>)>, bound: int)
    requires
        ranks_rise_below(s, bound),
    ensures
        ranks_rise_below(s, bound + 1),
{
}

/// Issues come in check order: tool, marker, required files, dependencies,
/// each kind at most once.
pub proof fn lemma_issue_order(f: WorkspaceFacts)
    ensures
        forall|i: int, j: int|
            0 <= i < j < expected_issues(f).len() ==> check_rank(
                #[trigger] expected_issues(f)[i].0,
            ) < check_rank(#[trigger] expected_issues(f)[j].0),
{
    let s0: Seq<(IssueKind, Seq<RequiredFile>)> = Seq::empty();
    let s1 = if f.tool_version is None { s0.push(plain(IssueKind::ToolMissing)) } else { s0 };
    let s2 = if !f.has_marker { s1.push(plain(IssueKind::MarkerMissing)) } else { s1 };
    let s3 = if missing_files(f).len() > 0 {
        s2.push((IssueKind::FilesMissing, missing_files(f)))
    } else {
        s2
    };
    let s4 = if !f.has_dependencies { s3.push(plain(IssueKind::DependenciesMissing)) } else { s3 };
    assert(ranks_rise_below(s0, 0));
    if f.tool_version is None {
        lemma_push_keeps_rise(s0, 0, plain(IssueKind::ToolMissing));
    } else {
        lemma_rise_weakens(s0, 0);
    }
    if !f.has_marker {
        lemma_push_keeps_rise(s1, 1, plain(IssueKind::MarkerMissing));
    } else {
        lemma_rise_weakens(s1, 1);
    }
    if missing_files(f).len() > 0 {
        lemma_push_keeps_rise(s2, 2, (IssueKind::FilesMissing, missing_files(f)));
    } else {
        lemma_rise_weakens(s2, 2);
    }
    if !f.has_dependencies {
        lemma_push_keeps_rise(s3, 3, plain(IssueKind::DependenciesMissing));
    } else {
        lemma_rise_weakens(s3, 3);
    }
    assert(s4 == expected_issues(f));
}

} // verus!
