use devtool_launcher::actions::{
    first_step, next_step, open_in_editor, open_in_finder, open_in_terminal, EditorOpenParams,
    Step, TerminalOpenParams,
};
use devtool_launcher::launcher::{plan_command, SpawnResult};
use devtool_launcher::paths::Platform;

fn strings(v: &[&str]) -> Vec<String> {
    v.iter().map(|s| s.to_string()).collect()
}

fn finished(s: Step) -> Result<(), String> {
    match s {
        Step::Finish(r) => r,
        Step::Run(i) => panic!("expected the action to finish, got attempt {i}"),
    }
}

#[test]
fn finder_on_macos_reveals_path() {
    let plan = open_in_finder(Platform::MacOs, "/tmp/project");
    assert_eq!(plan.attempts.len(), 1);
    assert_eq!(plan.attempts[0].program, "/usr/bin/open");
    assert_eq!(plan.attempts[0].arguments, strings(&["-R", "/tmp/project"]));
    assert!(!plan.attempts[0].via_launcher);
    assert!(matches!(first_step(&plan), Step::Run(0)));
    let failed = next_step(&plan, 0, &SpawnResult::Exited { success: false });
    assert_eq!(finished(failed), Err("Finder 打开失败".to_string()));
    let ok = next_step(&plan, 0, &SpawnResult::Exited { success: true });
    assert_eq!(finished(ok), Ok(()));
    let no_start = next_step(&plan, 0, &SpawnResult::SpawnFailed { message: "denied".to_string(), os_code: Some(13) });
    assert_eq!(finished(no_start), Err("无法打开 Finder: denied".to_string()));
}

#[test]
fn finder_elsewhere_uses_default_opener() {
    let plan = open_in_finder(Platform::Linux, "/tmp/project");
    assert_eq!(plan.attempts[0].program, "xdg-open");
    assert_eq!(plan.attempts[0].arguments, strings(&["/tmp/project"]));
    let failed = next_step(&plan, 0, &SpawnResult::Exited { success: false });
    assert_eq!(finished(failed), Err("打开路径失败".to_string()));
    let plan = open_in_finder(Platform::Windows, "C:\\p");
    assert_eq!(plan.attempts[0].program, "explorer");
}

#[test]
fn editor_override_resolves_command() {
    let params = EditorOpenParams {
        path: "/tmp/f.txt".to_string(),
        app_name: None,
        bundle_id: None,
        command_path: Some("subl".to_string()),
        arguments: Some(strings(&["--wait", "{path}"])),
    };
    let plan = open_in_editor(params, Platform::Linux);
    assert_eq!(plan.attempts.len(), 1);
    let a = &plan.attempts[0];
    assert!(a.via_launcher);
    let inv = plan_command(Platform::Linux, &a.program, &a.arguments);
    assert_eq!(inv.program, "subl");
    assert_eq!(inv.arguments, strings(&["--wait", "/tmp/f.txt"]));
    let failed = next_step(
        &plan,
        0,
        &SpawnResult::SpawnFailed { message: "No such file or directory (os error 2)".to_string(), os_code: Some(2) },
    );
    assert_eq!(finished(failed), Err("打开编辑器失败: No such file or directory (os error 2)".to_string()));
}

#[test]
fn editor_on_macos_tries_name_then_identifier_then_command() {
    let params = EditorOpenParams {
        path: "/tmp/p".to_string(),
        app_name: Some("Zed".to_string()),
        bundle_id: Some("dev.zed.Zed".to_string()),
        command_path: Some("zed".to_string()),
        arguments: None,
    };
    let plan = open_in_editor(params, Platform::MacOs);
    assert_eq!(plan.attempts.len(), 3);
    assert_eq!(plan.attempts[0].arguments, strings(&["-a", "Zed", "/tmp/p"]));
    assert_eq!(plan.attempts[1].arguments, strings(&["-b", "dev.zed.Zed", "/tmp/p"]));
    assert_eq!(plan.attempts[2].arguments, strings(&["/tmp/p"]));
    assert!(matches!(next_step(&plan, 0, &SpawnResult::Exited { success: false }), Step::Run(1)));
    assert!(matches!(next_step(&plan, 1, &SpawnResult::Exited { success: false }), Step::Run(2)));
    assert_eq!(finished(next_step(&plan, 2, &SpawnResult::Exited { success: false })), Err("打开编辑器失败".to_string()));
    let no_start = next_step(&plan, 0, &SpawnResult::SpawnFailed { message: "e".to_string(), os_code: None });
    assert_eq!(finished(no_start), Err("打开编辑器失败: e".to_string()));
}

#[test]
fn editor_without_any_way_fails() {
    let params = EditorOpenParams {
        path: "/tmp/p".to_string(),
        app_name: Some("Zed".to_string()),
        bundle_id: None,
        command_path: None,
        arguments: None,
    };
    let plan = open_in_editor(params, Platform::Linux);
    assert!(plan.attempts.is_empty());
    assert_eq!(finished(first_step(&plan)), Err("未能打开编辑器".to_string()));
    let params = EditorOpenParams {
        path: "/tmp/p".to_string(),
        app_name: Some("Zed".to_string()),
        bundle_id: None,
        command_path: None,
        arguments: None,
    };
    let plan = open_in_editor(params, Platform::MacOs);
    assert_eq!(finished(next_step(&plan, 0, &SpawnResult::Exited { success: false })), Err("未能打开编辑器".to_string()));
}

#[test]
fn terminal_on_windows_falls_back_to_powershell() {
    let params = TerminalOpenParams { path: "C:\\a \"b\"".to_string(), command_path: None, arguments: None };
    let plan = open_in_terminal(params, Platform::Windows);
    assert_eq!(plan.attempts.len(), 2);
    assert_eq!(plan.attempts[0].program, "wt.exe");
    assert_eq!(plan.attempts[0].arguments, strings(&["-d", "C:\\a \"b\""]));
    assert_eq!(plan.attempts[1].program, "powershell.exe");
    assert_eq!(
        plan.attempts[1].arguments,
        strings(&["-NoExit", "-Command", "Set-Location -LiteralPath \"C:\\a \"\"b\"\"\""])
    );
    let after = next_step(&plan, 0, &SpawnResult::SpawnFailed { message: "x".to_string(), os_code: Some(2) });
    assert!(matches!(after, Step::Run(1)));
    assert_eq!(finished(next_step(&plan, 1, &SpawnResult::Exited { success: false })), Err("终端打开失败".to_string()));
}

#[test]
fn terminal_on_macos_drives_terminal_app() {
    let params = TerminalOpenParams { path: "/tmp/a\"b".to_string(), command_path: None, arguments: None };
    let plan = open_in_terminal(params, Platform::MacOs);
    assert_eq!(plan.attempts[0].program, "/usr/bin/osascript");
    assert_eq!(
        plan.attempts[0].arguments,
        strings(&["-e", "tell application \"Terminal\"\n    do script \"cd \\\"/tmp/a\\\"b\\\"\"\n    activate\nend tell"])
    );
}

#[test]
fn terminal_override_and_linux_default() {
    let params = TerminalOpenParams {
        path: "/tmp/p".to_string(),
        command_path: Some("alacritty".to_string()),
        arguments: Some(strings(&["--working-directory", "{path}"])),
    };
    let plan = open_in_terminal(params, Platform::Linux);
    assert!(plan.attempts[0].via_launcher);
    assert_eq!(plan.attempts[0].arguments, strings(&["--working-directory", "/tmp/p"]));
    let failed = next_step(&plan, 0, &SpawnResult::SpawnFailed { message: "gone".to_string(), os_code: Some(2) });
    assert_eq!(finished(failed), Err("无法打开终端: gone".to_string()));
    let params = TerminalOpenParams { path: "/tmp/p".to_string(), command_path: None, arguments: None };
    let plan = open_in_terminal(params, Platform::Linux);
    assert_eq!(plan.attempts[0].program, "xdg-open");
}
