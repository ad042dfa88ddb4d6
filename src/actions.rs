//! The three actions offered to the host: reveal a path in the file manager,
//! open a terminal there, open it in an editor. Each action is a plan of
//! attempts; the caller starts the attempts one at a time and hands each
//! outcome to `next_step`, which says what to do next.
use vstd::prelude::*;
use crate::args::{arguments_for, build_command_arguments};
use crate::launcher::{outcome_of, result_view, run_command_with_shell_support, spawn_view, SpawnResult};
use crate::paths::Platform;
use crate::text::{concat3, replace_all, replace_str, strs};

verus! {

/// Parameters of the editor action.
pub struct EditorOpenParams {
    pub path: String,
    pub app_name: Option<String>,
    pub bundle_id: Option<String>,
    pub command_path: Option<String>,
    pub arguments: Option<Vec<String>>,
}

/// Parameters of the terminal action.
pub struct TerminalOpenParams {
    pub path: String,
    pub command_path: Option<String>,
    pub arguments: Option<Vec<String>>,
}

/// One way of carrying out an action.
pub struct Attempt {
    /// Whether `program` is a user-configured command, to be started through
    /// the shell-aware launcher (`plan_command`, `plan_retry`), rather than
    /// started as it stands.
    pub via_launcher: bool,
    pub program: String,
    pub arguments: Vec<String>,
    /// The message prefix when the process cannot start; none: go on.
    pub spawn_error_prefix: Option<String>,
    /// The message when the process exits with failure; none: go on.
    pub failure_message: Option<String>,
}

/// An action: attempts in order, and the error when all of them went on.
pub struct ActionPlan {
    pub attempts: Vec<Attempt>,
    pub exhausted: String,
}

/// What to do after an attempt.
pub enum Step {
    /// Start the attempt with this index.
    Run(usize),
    /// The action is over, with this result.
    Finish(Result<(), String>),
}

/// An attempt as character sequences.
pub struct AttemptView {
    pub via_launcher: bool,
    pub program: Seq<char>,
    pub arguments: Seq<Seq<char>>,
    pub spawn_error_prefix: Option<Seq<char>>,
    pub failure_message: Option<Seq<char>>,
}

/// The view of an optional string.
pub open spec fn ov(o: Option<String>) -> Option<Seq<char>> {
    match o {
        Some(s) => Some(s@),
        None => None,
    }
}

impl View for Attempt {
    type V = AttemptView;

    open spec fn view(&self) -> AttemptView {
        AttemptView {
            via_launcher: self.via_launcher,
            program: self.program@,
            arguments: strs(self.arguments@),
            spawn_error_prefix: ov(self.spawn_error_prefix),
            failure_message: ov(self.failure_message),
        }
    }
}

/// The views of a sequence of attempts.
pub open spec fn attempt_views(v: Seq<Attempt>) -> Seq<AttemptView> {
    v.map_values(|a: Attempt| a@)
}

/// An attempt that starts a fixed process and ends the action on any outcome.
pub open spec fn final_attempt(program: Seq<char>, arguments: Seq<Seq<char>>, prefix: Seq<char>, failure: Seq<char>) -> AttemptView {
    AttemptView {
        via_launcher: false,
        program,
        arguments,
        spawn_error_prefix: Some(prefix),
        failure_message: Some(failure),
    }
}

/// Builds an attempt.
pub fn attempt(
    via_launcher: bool,
    program: String,
    arguments: Vec<String>,
    spawn_error_prefix: Option<&str>,
    failure_message: Option<&str>,
) -> (r: Attempt)
    ensures
        r@ == (AttemptView {
            via_launcher,
            program: program@,
            arguments: strs(arguments@),
            spawn_error_prefix: match spawn_error_prefix {
                Some(p) => Some(p@),
                None => None,
            },
            failure_message: match failure_message {
                Some(m) => Some(m@),
                None => None,
            },
        }),
{
    Attempt {
        via_launcher,
        program,
        arguments,
        spawn_error_prefix: match spawn_error_prefix {
            Some(p) => Some(p.to_string()),
            None => None,
        },
        failure_message: match failure_message {
            Some(m) => Some(m.to_string()),
            None => None,
        },
    }
}

/// A vector of one string.
pub fn one(a: &str) -> (r: Vec<String>)
    ensures
        strs(r@) == seq![a@],
{
    let mut v: Vec<String> = Vec::new();
    v.push(a.to_string());
    assert(strs(v@) =~= seq![a@]);
    v
}

/// A vector of two strings.
pub fn two(a: &str, b: &str) -> (r: Vec<String>)
    ensures
        strs(r@) == seq![a@, b@],
{
    let mut v: Vec<String> = Vec::new();
    v.push(a.to_string());
    v.push(b.to_string());
    assert(strs(v@) =~= seq![a@, b@]);
    v
}

/// A vector of three strings.
pub fn three(a: &str, b: &str, c: &str) -> (r: Vec<String>)
    ensures
        strs(r@) == seq![a@, b@, c@],
{
    let mut v: Vec<String> = Vec::new();
    v.push(a.to_string());
    v.push(b.to_string());
    v.push(c.to_string());
    assert(strs(v@) =~= seq![a@, b@, c@]);
    v
}

/// The platform's default opener applied to `path`.
pub open spec fn default_open(platform: Platform, path: Seq<char>) -> AttemptView {
    let program = match platform {
        Platform::MacOs => "/usr/bin/open"@,
        Platform::Windows => "explorer"@,
        Platform::Linux => "xdg-open"@,
    };
    final_attempt(program, seq![path], "无法打开路径:"@, "打开路径失败"@)
}

/// The platform's default opener applied to `path`.
pub fn open_with_default(platform: Platform, path: &str) -> (r: Attempt)
    ensures
        r@ == default_open(platform, path@),
{
    let program = match platform {
        Platform::MacOs => "/usr/bin/open",
        Platform::Windows => "explorer",
        Platform::Linux => "xdg-open",
    };
    attempt(false, program.to_string(), one(path), Some("无法打开路径:"), Some("打开路径失败"))
}

/// The file-manager action: on macOS reveal and select `path` in Finder,
/// elsewhere open it with the default opener.
pub open spec fn finder_plan(platform: Platform, path: Seq<char>) -> (Seq<AttemptView>, Seq<char>) {
    if platform == Platform::MacOs {
        (
            seq![final_attempt("/usr/bin/open"@, seq!["-R"@, path], "无法打开 Finder:"@, "Finder 打开失败"@)],
            "Finder 打开失败"@,
        )
    } else {
        (seq![default_open(platform, path)], "打开路径失败"@)
    }
}

/// The view of a plan.
pub open spec fn plan_view(p: ActionPlan) -> (Seq<AttemptView>, Seq<char>) {
    (attempt_views(p.attempts@), p.exhausted@)
}

/// Plans revealing `path` in the system file manager.
pub fn open_in_finder(platform: Platform, path: &str) -> (r: ActionPlan)
    ensures
        plan_view(r) == finder_plan(platform, path@),
{
    let mut attempts: Vec<Attempt> = Vec::new();
    if platform == Platform::MacOs {
        let a = attempt(
            false,
            "/usr/bin/open".to_string(),
            two("-R", path),
            Some("无法打开 Finder:"),
            Some("Finder 打开失败"),
        );
        attempts.push(a);
        assert(attempt_views(attempts@) =~= seq![a@]);
        ActionPlan { attempts, exhausted: "Finder 打开失败".to_string() }
    } else {
        let a = open_with_default(platform, path);
        attempts.push(a);
        assert(attempt_views(attempts@) =~= seq![a@]);
        ActionPlan { attempts, exhausted: "打开路径失败".to_string() }
    }
}

/// The view of an optional template.
pub open spec fn template_view(t: Option<Vec<String>>) -> Option<Seq<Seq<char>>> {
    match t {
        Some(v) => Some(strs(v@)),
        None => None,
    }
}

/// An attempt that starts a user-configured command through the launcher.
pub open spec fn command_attempt(
    command_path: Seq<char>,
    arguments: Seq<Seq<char>>,
    prefix: Seq<char>,
    failure: Seq<char>,
) -> AttemptView {
    AttemptView {
        via_launcher: true,
        program: command_path,
        arguments,
        spawn_error_prefix: Some(prefix),
        failure_message: Some(failure),
    }
}

/// The AppleScript that opens Terminal in the directory `escaped`.
pub open spec fn terminal_script(escaped: Seq<char>) -> Seq<char> {
    "tell application \"Terminal\"\n    do script \"cd \\\""@ + escaped + "\\\"\"\n    activate\nend tell"@
}

/// The PowerShell command that changes to the directory `escaped`.
pub open spec fn set_location_command(escaped: Seq<char>) -> Seq<char> {
    "Set-Location -LiteralPath \""@ + escaped + "\""@
}

/// The terminal action.
pub open spec fn terminal_plan(
    platform: Platform,
    path: Seq<char>,
    command_path: Option<Seq<char>>,
    template: Option<Seq<Seq<char>>>,
) -> (Seq<AttemptView>, Seq<char>) {
    match command_path {
        Some(c) => (
            seq![command_attempt(c, arguments_for(template, path), "无法打开终端:"@, "终端打开失败"@)],
            "终端打开失败"@,
        ),
        None => match platform {
            Platform::Windows => (
                seq![
                    AttemptView {
                        via_launcher: false,
                        program: "wt.exe"@,
                        arguments: seq!["-d"@, path],
                        spawn_error_prefix: None,
                        failure_message: None,
                    },
                    final_attempt(
                        "powershell.exe"@,
                        seq![
                            "-NoExit"@,
                            "-Command"@,
                            set_location_command(replace_all(path, "\""@, "\"\""@)),
                        ],
                        "无法打开终端:"@,
                        "终端打开失败"@,
                    ),
                ],
                "终端打开失败"@,
            ),
            Platform::MacOs => (
                seq![
                    final_attempt(
                        "/usr/bin/osascript"@,
                        seq!["-e"@, terminal_script(replace_all(path, "\""@, "\\\""@))],
                        "无法打开终端:"@,
                        "终端打开失败"@,
                    ),
                ],
                "终端打开失败"@,
            ),
            Platform::Linux => (seq![default_open(platform, path)], "打开路径失败"@),
        },
    }
}

/// Plans opening a terminal in `params.path`: through the configured command
/// when there is one, else the platform's terminal.
pub fn open_in_terminal(params: TerminalOpenParams, platform: Platform) -> (r: ActionPlan)
    ensures
        plan_view(r) == terminal_plan(
            platform,
            params.path@,
            ov(params.command_path),
            template_view(params.arguments),
        ),
{
    proof {
        reveal_strlit("\"");
    }
    let path = params.path.as_str();
    let mut attempts: Vec<Attempt> = Vec::new();
    if let Some(command_path) = params.command_path {
        let arguments = build_command_arguments(params.arguments, path);
        let a = attempt(true, command_path, arguments, Some("无法打开终端:"), Some("终端打开失败"));
        attempts.push(a);
        assert(attempt_views(attempts@) =~= seq![a@]);
        return ActionPlan { attempts, exhausted: "终端打开失败".to_string() };
    }
    match platform {
        Platform::Windows => {
            let wt = attempt(false, "wt.exe".to_string(), two("-d", path), None, None);
            let escaped = replace_str(path, "\"", "\"\"");
            let command = concat3("Set-Location -LiteralPath \"", escaped.as_str(), "\"");
            let ps = attempt(
                false,
                "powershell.exe".to_string(),
                three("-NoExit", "-Command", command.as_str()),
                Some("无法打开终端:"),
                Some("终端打开失败"),
            );
            attempts.push(wt);
            attempts.push(ps);
            assert(attempt_views(attempts@) =~= seq![wt@, ps@]);
            ActionPlan { attempts, exhausted: "终端打开失败".to_string() }
        },
        Platform::MacOs => {
            let escaped = replace_str(path, "\"", "\\\"");
            let script = concat3(
                "tell application \"Terminal\"\n    do script \"cd \\\"",
                escaped.as_str(),
                "\\\"\"\n    activate\nend tell",
            );
            let a = attempt(
                false,
                "/usr/bin/osascript".to_string(),
                two("-e", script.as_str()),
                Some("无法打开终端:"),
                Some("终端打开失败"),
            );
            attempts.push(a);
            assert(attempt_views(attempts@) =~= seq![a@]);
            ActionPlan { attempts, exhausted: "终端打开失败".to_string() }
        },
        Platform::Linux => {
            let a = open_with_default(platform, path);
            attempts.push(a);
            assert(attempt_views(attempts@) =~= seq![a@]);
            ActionPlan { attempts, exhausted: "打开路径失败".to_string() }
        },
    }
}

/// An attempt to open `path` with an application named by `flag` ("-a" for a
/// display name, "-b" for an identifier); on failure the action goes on.
pub open spec fn app_attempt(flag: Seq<char>, app: Seq<char>, path: Seq<char>) -> AttemptView {
    AttemptView {
        via_launcher: false,
        program: "/usr/bin/open"@,
        arguments: seq![flag, app, path],
        spawn_error_prefix: Some("打开编辑器失败:"@),
        failure_message: None,
    }
}

/// The editor action.
pub open spec fn editor_plan(
    platform: Platform,
    path: Seq<char>,
    app_name: Option<Seq<char>>,
    bundle_id: Option<Seq<char>>,
    command_path: Option<Seq<char>>,
    template: Option<Seq<Seq<char>>>,
) -> (Seq<AttemptView>, Seq<char>) {
    let mac = platform == Platform::MacOs;
    let by_name = match app_name {
        Some(a) if mac => seq![app_attempt("-a"@, a, path)],
        _ => seq![],
    };
    let by_id = match bundle_id {
        Some(b) if mac => seq![app_attempt("-b"@, b, path)],
        _ => seq![],
    };
    let by_command = match command_path {
        Some(c) => seq![
            command_attempt(c, arguments_for(template, path), "打开编辑器失败:"@, "打开编辑器失败"@),
        ],
        None => seq![],
    };
    (by_name + by_id + by_command, "未能打开编辑器"@)
}

/// Plans opening `params.path` in an editor: on macOS by application name,
/// then by identifier; then through the configured command. With none of
/// these the action fails.
pub fn open_in_editor(params: EditorOpenParams, platform: Platform) -> (r: ActionPlan)
    ensures
        plan_view(r) == editor_plan(
            platform,
            params.path@,
            ov(params.app_name),
            ov(params.bundle_id),
            ov(params.command_path),
            template_view(params.arguments),
        ),
{
    let path = params.path.as_str();
    let mut attempts: Vec<Attempt> = Vec::new();
    let ghost plan = editor_plan(
        platform,
        params.path@,
        ov(params.app_name),
        ov(params.bundle_id),
        ov(params.command_path),
        template_view(params.arguments),
    );
    if platform == Platform::MacOs {
        if let Some(app_name) = &params.app_name {
            let a = attempt(false, "/usr/bin/open".to_string(), three("-a", app_name.as_str(), path), Some("打开编辑器失败:"), None);
            attempts.push(a);
        }
        if let Some(bundle_id) = &params.bundle_id {
            let a = attempt(false, "/usr/bin/open".to_string(), three("-b", bundle_id.as_str(), path), Some("打开编辑器失败:"), None);
            let ghost before = attempts@;
            attempts.push(a);
            assert(attempt_views(attempts@) =~= attempt_views(before).push(a@));
        }
    }
    let ghost mid = attempt_views(attempts@);
    if let Some(command_path) = params.command_path {
        let arguments = build_command_arguments(params.arguments, path);
        let a = attempt(true, command_path, arguments, Some("打开编辑器失败:"), Some("打开编辑器失败"));
        attempts.push(a);
        assert(attempt_views(attempts@) =~= mid.push(a@));
    }
    assert(attempt_views(attempts@) =~= plan.0);
    ActionPlan { attempts, exhausted: "未能打开编辑器".to_string() }
}

/// What follows an outcome of attempt `i` of `plan`.
pub open spec fn step_of(
    plan: (Seq<AttemptView>, Seq<char>),
    i: int,
    success: Option<bool>,
    message: Seq<char>,
) -> Result<int, Result<(), Seq<char>>> {
    let a = plan.0[i];
    let go_on = if i + 1 < plan.0.len() {
        Ok(i + 1)
    } else {
        Err(Err(plan.1))
    };
    match success {
        Some(true) => Err(Ok(())),
        Some(false) => match a.failure_message {
            Some(m) => Err(Err(m)),
            None => go_on,
        },
        None => match a.spawn_error_prefix {
            Some(p) => Err(outcome_of(None, message, p, seq![])),
            None => go_on,
        },
    }
}

/// The view of a step.
pub open spec fn step_view(s: Step) -> Result<int, Result<(), Seq<char>>> {
    match s {
        Step::Run(i) => Ok(i as int),
        Step::Finish(r) => Err(result_view(r)),
    }
}

/// The first step of a plan: its first attempt, or its error when it has none.
pub fn first_step(plan: &ActionPlan) -> (r: Step)
    ensures
        step_view(r) == (if plan.attempts@.len() > 0 {
            Ok(0int)
        } else {
            Err(Err::<(), Seq<char>>(plan.exhausted@))
        }),
{
    if plan.attempts.len() > 0 {
        Step::Run(0)
    } else {
        Step::Finish(Err(plan.exhausted.clone()))
    }
}

/// Decides what follows the outcome `spawned` of attempt `index`.
pub fn next_step(plan: &ActionPlan, index: usize, spawned: &SpawnResult) -> (r: Step)
    requires
        index < plan.attempts@.len(),
    ensures
        step_view(r) == step_of(plan_view(*plan), index as int, spawn_view(*spawned).0, spawn_view(*spawned).1),
{
    let a = &plan.attempts[index];
    let ghost av = plan_view(*plan).0[index as int];
    assert(av == a@);
    let go_on = index < plan.attempts.len() - 1;
    match spawned {
        SpawnResult::Exited { success } => {
            if *success {
                return Step::Finish(Ok(()));
            }
            if let Some(m) = &a.failure_message {
                return Step::Finish(Err(m.clone()));
            }
        },
        SpawnResult::SpawnFailed { .. } => {
            if let Some(p) = &a.spawn_error_prefix {
                return Step::Finish(run_command_with_shell_support(spawned, p.as_str(), ""));
            }
        },
    }
    if go_on {
        Step::Run(index + 1)
    } else {
        Step::Finish(Err(plan.exhausted.clone()))
    }
}

} // verus!
