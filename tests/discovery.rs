use devtool_launcher::presets::{
    edition_name, list_dev_tool_presets, DevToolPreset, ProbeEnv,
};
use devtool_launcher::paths::Platform;

fn strings(v: &[&str]) -> Vec<String> {
    v.iter().map(|s| s.to_string()).collect()
}

fn summary(v: &[DevToolPreset]) -> Vec<(String, String, String, Vec<String>)> {
    v.iter()
        .map(|p| (p.id.clone(), p.name.clone(), p.command_path.clone(), p.arguments.clone()))
        .collect()
}

fn env(dirs: &[&str]) -> ProbeEnv {
    ProbeEnv { path_dirs: strings(dirs), program_files: None, program_files_x86: None, local_app_data: None }
}

#[test]
fn linux_discovery_follows_catalog_order() {
    let files = strings(&["/usr/bin/pycharm", "/opt/bin/idea", "/usr/bin/code"]);
    let is_file = |p: String| files.contains(&p);
    let exists = |_p: String| false;
    let list = |_p: String| Vec::new();
    let r = list_dev_tool_presets(Platform::Linux, &env(&["/usr/bin", "/opt/bin"]), &exists, &list, &is_file);
    assert_eq!(
        summary(&r),
        vec![
            ("vscode".to_string(), "Visual Studio Code".to_string(), "/usr/bin/code".to_string(), strings(&["{path}"])),
            ("intellij-idea".to_string(), "IntelliJ IDEA".to_string(), "/opt/bin/idea".to_string(), strings(&["{path}"])),
            ("pycharm".to_string(), "PyCharm".to_string(), "/usr/bin/pycharm".to_string(), strings(&["{path}"])),
        ]
    );
}

#[test]
fn discovery_with_nothing_installed_is_empty() {
    let no = |_p: String| false;
    let list = |_p: String| Vec::new();
    for platform in [Platform::Linux, Platform::MacOs, Platform::Windows] {
        assert!(list_dev_tool_presets(platform, &env(&["/usr/bin"]), &no, &list, &no).is_empty());
    }
}

#[test]
fn discovery_twice_gives_same_sequence() {
    let files = strings(&["/usr/bin/code", "/usr/bin/goland", "/usr/bin/rider"]);
    let is_file = |p: String| files.contains(&p);
    let no = |_p: String| false;
    let list = |_p: String| Vec::new();
    let e = env(&["/usr/bin"]);
    let a = list_dev_tool_presets(Platform::Linux, &e, &no, &list, &is_file);
    let b = list_dev_tool_presets(Platform::Linux, &e, &no, &list, &is_file);
    assert_eq!(summary(&a), summary(&b));
    assert_eq!(a.len(), 3);
}

#[test]
fn macos_bundles_and_secondary_edition() {
    let bundles = strings(&[
        "/Applications/Visual Studio Code.app",
        "/Applications/IntelliJ IDEA CE.app",
        "/Applications/PyCharm.app",
        "/Applications/PyCharm CE.app",
    ]);
    let exists = |p: String| bundles.contains(&p);
    let no = |_p: String| false;
    let list = |_p: String| Vec::new();
    let r = list_dev_tool_presets(Platform::MacOs, &env(&[]), &exists, &list, &no);
    assert_eq!(
        summary(&r),
        vec![
            ("vscode".to_string(), "Visual Studio Code".to_string(), "/usr/bin/open".to_string(), strings(&["-a", "Visual Studio Code", "{path}"])),
            ("intellij-idea".to_string(), "IntelliJ IDEA Community".to_string(), "/usr/bin/open".to_string(), strings(&["-a", "IntelliJ IDEA CE", "{path}"])),
            ("pycharm".to_string(), "PyCharm".to_string(), "/usr/bin/open".to_string(), strings(&["-a", "PyCharm", "{path}"])),
        ]
    );
}

#[test]
fn windows_discovery_uses_roots_toolbox_and_path() {
    let local = "C:\\Users\\u\\AppData\\Local";
    let channel_c = format!("{local}\\JetBrains\\Toolbox\\apps\\IDEA-C\\ch-0");
    let channel_c2 = channel_c.clone();
    let list = move |p: String| {
        if p == channel_c2 {
            strings(&["241.1"])
        } else if p == "C:\\PF\\JetBrains" {
            strings(&["CLion 2024"])
        } else {
            Vec::new()
        }
    };
    let files = vec![
        format!("{local}\\Programs\\Microsoft VS Code\\Code.exe"),
        "C:\\bin\\code-insiders.cmd".to_string(),
        format!("{channel_c}\\241.1\\bin\\idea64.exe"),
        "C:\\PF\\JetBrains\\CLion 2024\\bin\\clion64.exe".to_string(),
    ];
    let is_file = |p: String| files.contains(&p);
    let no = |_p: String| false;
    let e = ProbeEnv {
        path_dirs: strings(&["C:\\bin"]),
        program_files: Some("C:\\PF".to_string()),
        program_files_x86: None,
        local_app_data: Some(local.to_string()),
    };
    let r = list_dev_tool_presets(Platform::Windows, &e, &no, &list, &is_file);
    assert_eq!(
        summary(&r),
        vec![
            ("vscode".to_string(), "Visual Studio Code".to_string(), format!("{local}\\Programs\\Microsoft VS Code\\Code.exe"), strings(&["{path}"])),
            ("vscode-insiders".to_string(), "Visual Studio Code - Insiders".to_string(), "C:\\bin\\code-insiders.cmd".to_string(), strings(&["{path}"])),
            ("intellij-idea".to_string(), "IntelliJ IDEA Community".to_string(), format!("{channel_c}\\241.1\\bin\\idea64.exe"), strings(&["{path}"])),
            ("clion".to_string(), "CLion".to_string(), "C:\\PF\\JetBrains\\CLion 2024\\bin\\clion64.exe".to_string(), strings(&["{path}"])),
        ]
    );
}

#[test]
fn edition_name_by_marker() {
    assert_eq!(edition_name("c:\\apps\\idea-c\\ch-0", "idea-c", "Community", "Ultimate"), "Community");
    assert_eq!(edition_name("c:\\apps\\idea-u\\ch-0", "idea-c", "Community", "Ultimate"), "Ultimate");
}
