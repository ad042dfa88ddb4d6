use devtool_launcher::args::build_command_arguments;
use devtool_launcher::text::{contains_str, replace_str};

fn strings(v: &[&str]) -> Vec<String> {
    v.iter().map(|s| s.to_string()).collect()
}

#[test]
fn placeholder_substituted_once_appends_nothing() {
    let r = build_command_arguments(Some(strings(&["--wait", "{path}"])), "/tmp/f.txt");
    assert_eq!(r, strings(&["--wait", "/tmp/f.txt"]));
}

#[test]
fn placeholder_inside_entry_is_replaced() {
    let r = build_command_arguments(Some(strings(&["--goto={path}:1"])), "/a b");
    assert_eq!(r, strings(&["--goto=/a b:1"]));
}

#[test]
fn every_occurrence_in_entry_is_replaced() {
    let r = build_command_arguments(Some(strings(&["{path}|{path}", "-x"])), "p");
    assert_eq!(r, strings(&["p|p", "-x"]));
}

#[test]
fn template_without_placeholder_gets_path_appended() {
    let r = build_command_arguments(Some(strings(&["-n", "--new-window"])), "/tmp/project");
    assert_eq!(r, strings(&["-n", "--new-window", "/tmp/project"]));
}

#[test]
fn empty_template_gets_path() {
    let r = build_command_arguments(Some(Vec::new()), "/tmp/project");
    assert_eq!(r, strings(&["/tmp/project"]));
}

#[test]
fn absent_template_gives_exactly_path() {
    let r = build_command_arguments(None, "/tmp/project");
    assert_eq!(r, strings(&["/tmp/project"]));
}

#[test]
fn near_placeholder_is_not_placeholder() {
    let r = build_command_arguments(Some(strings(&["{Path}", "{path"])), "x");
    assert_eq!(r, strings(&["{Path}", "{path", "x"]));
}

#[test]
fn text_contains_and_replace() {
    assert!(contains_str("abc{path}", "{path}"));
    assert!(!contains_str("abc{pat}", "{path}"));
    assert!(contains_str("abc", ""));
    assert_eq!(replace_str("a\"b\"", "\"", "\"\""), "a\"\"b\"\"");
    assert_eq!(replace_str("aaa", "aa", "b"), "ba");
}
