use devtool_launcher::locator::{
    find_in_path, find_jetbrains_in_roots, find_jetbrains_toolbox_exe, jetbrains_install_roots,
    latest_build, lex_less, search_path_candidates,
};
use devtool_launcher::paths::{extension, has_extension, join_path, with_extension, Platform};

fn strings(v: &[&str]) -> Vec<String> {
    v.iter().map(|s| s.to_string()).collect()
}

#[test]
fn search_path_earlier_directory_wins() {
    let files = strings(&["/a/code", "/b/code"]);
    let is_file = |p: String| files.contains(&p);
    let r = find_in_path(&strings(&["/a", "/b"]), "code", Platform::Linux, &is_file);
    assert_eq!(r, Some("/a/code".to_string()));
}

#[test]
fn search_path_later_directory_used_when_first_misses() {
    let files = strings(&["/b/code"]);
    let is_file = |p: String| files.contains(&p);
    let r = find_in_path(&strings(&["/a/", "/b"]), "code", Platform::Linux, &is_file);
    assert_eq!(r, Some("/b/code".to_string()));
}

#[test]
fn search_path_miss_gives_none() {
    let is_file = |_p: String| false;
    assert_eq!(find_in_path(&strings(&["/a", "/b"]), "code", Platform::Linux, &is_file), None);
    assert_eq!(find_in_path(&Vec::new(), "code", Platform::Linux, &is_file), None);
}

#[test]
fn windows_search_path_tries_extensions_in_order() {
    let c = search_path_candidates(&strings(&["C:\\bin"]), "code", Platform::Windows);
    assert_eq!(
        c,
        strings(&["C:\\bin\\code", "C:\\bin\\code.exe", "C:\\bin\\code.cmd", "C:\\bin\\code.bat"])
    );
    let c = search_path_candidates(&strings(&["C:\\bin"]), "code.exe", Platform::Windows);
    assert_eq!(c, strings(&["C:\\bin\\code.exe"]));
    let files = strings(&["C:\\bin\\code.cmd", "D:\\code.exe"]);
    let is_file = |p: String| files.contains(&p);
    let r = find_in_path(&strings(&["C:\\bin", "D:\\"]), "code", Platform::Windows, &is_file);
    assert_eq!(r, Some("C:\\bin\\code.cmd".to_string()));
}

#[test]
fn latest_build_is_lexicographically_last() {
    let r = latest_build(&strings(&["1.2", "1.10", "2.0"]));
    assert_eq!(r, Some("2.0".to_string()));
}

#[test]
fn latest_build_orders_by_string_not_version() {
    // "1.9" sorts after "1.10" as strings, though 1.10 is the later version.
    let r = latest_build(&strings(&["1.10", "1.9"]));
    assert_eq!(r, Some("1.9".to_string()));
    assert_eq!(latest_build(&Vec::new()), None);
    assert!(lex_less("1.10", "1.9"));
    assert!(lex_less("1", "1.0"));
    assert!(!lex_less("b", "b"));
}

#[test]
fn toolbox_picks_latest_build_that_has_the_executable() {
    let base = "C:\\Users\\u\\AppData\\Local\\JetBrains\\Toolbox\\apps\\IDEA-U\\ch-0";
    let list = move |p: String| {
        if p == base {
            strings(&["231.1", "233.2", "240.9"])
        } else {
            Vec::new()
        }
    };
    let files = vec![
        format!("{base}\\231.1\\bin\\idea64.exe"),
        format!("{base}\\233.2\\bin\\idea64.exe"),
    ];
    let is_file = |p: String| files.contains(&p);
    let local = Some("C:\\Users\\u\\AppData\\Local".to_string());
    let r = find_jetbrains_toolbox_exe(&local, "IDEA-U", "idea64.exe", &list, &is_file);
    assert_eq!(r, Some(format!("{base}\\233.2\\bin\\idea64.exe")));
    let r = find_jetbrains_toolbox_exe(&None, "IDEA-U", "idea64.exe", &list, &is_file);
    assert_eq!(r, None);
    let r = find_jetbrains_toolbox_exe(&local, "IDEA-C", "idea64.exe", &list, &is_file);
    assert_eq!(r, None);
}

#[test]
fn install_roots_in_order_and_first_hit() {
    let roots = jetbrains_install_roots(
        &Some("C:\\PF".to_string()),
        &None,
        &Some("C:\\L".to_string()),
    );
    assert_eq!(roots, strings(&["C:\\PF\\JetBrains", "C:\\L\\JetBrains", "C:\\L\\Programs\\JetBrains"]));
    let list = |p: String| {
        if p == "C:\\PF\\JetBrains" {
            strings(&["GoLand 2023", "WebStorm 2024"])
        } else if p == "C:\\L\\JetBrains" {
            strings(&["WebStorm"])
        } else {
            Vec::new()
        }
    };
    let files = strings(&["C:\\PF\\JetBrains\\WebStorm 2024\\bin\\webstorm64.exe", "C:\\L\\JetBrains\\WebStorm\\bin\\webstorm64.exe"]);
    let is_file = |p: String| files.contains(&p);
    let r = find_jetbrains_in_roots(&roots, "webstorm64.exe", &list, &is_file);
    assert_eq!(r, Some("C:\\PF\\JetBrains\\WebStorm 2024\\bin\\webstorm64.exe".to_string()));
    assert_eq!(find_jetbrains_in_roots(&roots, "rider64.exe", &list, &is_file), None);
}

#[test]
fn path_helpers() {
    assert_eq!(join_path("/usr/bin", "code", Platform::Linux), "/usr/bin/code");
    assert_eq!(join_path("/usr/bin/", "code", Platform::Linux), "/usr/bin/code");
    assert_eq!(join_path("", "code", Platform::Linux), "code");
    assert_eq!(join_path("C:\\bin", "code", Platform::Windows), "C:\\bin\\code");
    assert_eq!(join_path("C:/bin/", "code", Platform::Windows), "C:/bin/code");
    assert_eq!(extension("C:\\tools\\run.CMD", Platform::Windows), Some("CMD".to_string()));
    assert_eq!(extension("/home/u/.bashrc", Platform::Linux), None);
    assert_eq!(extension("a.b/c", Platform::Linux), None);
    assert_eq!(extension("a/c.tar.gz/", Platform::Linux), Some("gz".to_string()));
    assert_eq!(extension("a\\c.exe", Platform::Linux), Some("exe".to_string()));
    assert_eq!(extension("..", Platform::Linux), None);
    assert!(!has_extension("C:\\tools\\subl", Platform::Windows));
    assert!(has_extension("name.", Platform::Linux));
    assert_eq!(with_extension("C:\\tools\\subl", "cmd", Platform::Windows), "C:\\tools\\subl.cmd");
}
