use devtool_launcher::launcher::{
    after_first_start, execute_windows_command, LaunchStep, plan_command, plan_retry, resolve_windows_command_fallback,
    resolve_windows_command_kind, run_command_with_shell_support, should_try_windows_fallback,
    CommandKind, SpawnResult,
};
use devtool_launcher::paths::Platform;

fn strings(v: &[&str]) -> Vec<String> {
    v.iter().map(|s| s.to_string()).collect()
}

#[test]
fn command_kind_by_extension() {
    assert_eq!(resolve_windows_command_kind("C:\\x\\run.cmd"), Some(CommandKind::Cmd));
    assert_eq!(resolve_windows_command_kind("C:\\x\\run.BAT"), Some(CommandKind::Cmd));
    assert_eq!(resolve_windows_command_kind("C:\\x\\run.Ps1"), Some(CommandKind::PowerShell));
    assert_eq!(resolve_windows_command_kind("C:\\x\\run.exe"), None);
    assert_eq!(resolve_windows_command_kind("C:\\x\\run"), None);
    assert_eq!(resolve_windows_command_kind("C:\\x.cmd\\run"), None);
}

#[test]
fn fallback_error_codes() {
    for c in [2, 3, 193, 216] {
        assert!(should_try_windows_fallback(Some(c)));
    }
    assert!(!should_try_windows_fallback(Some(5)));
    assert!(!should_try_windows_fallback(None));
}

#[test]
fn fallback_prefers_cmd_sibling() {
    let files = strings(&["C:\\tools\\subl.cmd", "C:\\tools\\subl.exe"]);
    let is_file = |p: String| files.contains(&p);
    let r = resolve_windows_command_fallback("C:\\tools\\subl", Some(2), &is_file);
    assert_eq!(r, Some((CommandKind::Cmd, "C:\\tools\\subl.cmd".to_string())));
    let r = resolve_windows_command_fallback("C:\\tools\\subl", Some(5), &is_file);
    assert_eq!(r, None);
    let r = resolve_windows_command_fallback("C:\\tools\\subl.bin", Some(2), &is_file);
    assert_eq!(r, None);
    let files = strings(&["C:\\tools\\subl.ps1", "C:\\tools\\subl.com"]);
    let is_file = |p: String| files.contains(&p);
    let r = resolve_windows_command_fallback("C:\\tools\\subl", Some(193), &is_file);
    assert_eq!(r, Some((CommandKind::PowerShell, "C:\\tools\\subl.ps1".to_string())));
    let none = |_p: String| false;
    assert_eq!(resolve_windows_command_fallback("C:\\tools\\subl", Some(2), &none), None);
}

#[test]
fn fallback_spawn_runs_interpreter_and_reports_its_exit() {
    let files = strings(&["C:\\tools\\subl.cmd"]);
    let is_file = |p: String| files.contains(&p);
    let args = strings(&["--wait", "C:\\f.txt"]);
    let first = plan_command(Platform::Windows, "C:\\tools\\subl", &args);
    assert_eq!(first.program, "C:\\tools\\subl");
    assert_eq!(first.arguments, args);
    let retry = plan_retry(Platform::Windows, "C:\\tools\\subl", &args, Some(2), &is_file).unwrap();
    assert_eq!(retry.program, "cmd.exe");
    assert_eq!(retry.arguments, strings(&["/C", "C:\\tools\\subl.cmd", "--wait", "C:\\f.txt"]));
    let ok = run_command_with_shell_support(&SpawnResult::Exited { success: true }, "p:", "failed");
    assert_eq!(ok, Ok(()));
    let bad = run_command_with_shell_support(&SpawnResult::Exited { success: false }, "p:", "failed");
    assert_eq!(bad, Err("failed".to_string()));
}

#[test]
fn no_retry_off_windows_or_for_scripts() {
    let is_file = |_p: String| true;
    let args = strings(&["x"]);
    assert!(plan_retry(Platform::Linux, "/usr/bin/subl", &args, Some(2), &is_file).is_none());
    assert!(plan_retry(Platform::Windows, "C:\\a\\run.cmd", &args, Some(2), &is_file).is_none());
}

#[test]
fn script_invocations() {
    let args = strings(&["a"]);
    let cmd = plan_command(Platform::Windows, "C:\\a\\run.bat", &args);
    assert_eq!(cmd.program, "cmd.exe");
    assert_eq!(cmd.arguments, strings(&["/C", "C:\\a\\run.bat", "a"]));
    let ps = execute_windows_command(CommandKind::PowerShell, "C:\\a\\run.ps1", &args);
    assert_eq!(ps.program, "powershell.exe");
    assert_eq!(
        ps.arguments,
        strings(&["-NoProfile", "-ExecutionPolicy", "Bypass", "-File", "C:\\a\\run.ps1", "a"])
    );
    let direct = plan_command(Platform::Linux, "/x/run.cmd", &args);
    assert_eq!(direct.program, "/x/run.cmd");
    assert_eq!(direct.arguments, args);
}

#[test]
fn spawn_failure_carries_os_message() {
    let r = run_command_with_shell_support(
        &SpawnResult::SpawnFailed { message: "No such file or directory (os error 2)".to_string(), os_code: Some(2) },
        "打开编辑器失败:",
        "打开编辑器失败",
    );
    assert_eq!(r, Err("打开编辑器失败: No such file or directory (os error 2)".to_string()));
}

#[test]
fn failed_first_start_leads_to_sibling_retry() {
    let files = strings(&["C:\\tools\\subl.cmd"]);
    let is_file = |p: String| files.contains(&p);
    let args = strings(&["a"]);
    let failed = SpawnResult::SpawnFailed { message: "not found".to_string(), os_code: Some(2) };
    match after_first_start(Platform::Windows, "C:\\tools\\subl", &args, failed, &is_file) {
        LaunchStep::Retry(inv) => {
            assert_eq!(inv.program, "cmd.exe");
            assert_eq!(inv.arguments, strings(&["/C", "C:\\tools\\subl.cmd", "a"]));
        }
        LaunchStep::Done(_) => panic!("expected a retry"),
    }
    let exited = SpawnResult::Exited { success: false };
    assert!(matches!(
        after_first_start(Platform::Windows, "C:\\tools\\subl", &args, exited, &is_file),
        LaunchStep::Done(SpawnResult::Exited { success: false })
    ));
    let failed = SpawnResult::SpawnFailed { message: "denied".to_string(), os_code: Some(5) };
    assert!(matches!(
        after_first_start(Platform::Windows, "C:\\tools\\subl", &args, failed, &is_file),
        LaunchStep::Done(SpawnResult::SpawnFailed { .. })
    ));
}
