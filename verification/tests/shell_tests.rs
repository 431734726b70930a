use hermit::join_paths;
use hermit::is_valid_shell_name;
use hermit::Shell;

fn root_path(path_str: &str) -> String {
    String::from(path_str)
}

#[test]
fn has_a_name() {
    let root_path = root_path("/");
    let s = Shell::new("my_shell", &root_path);
    assert_eq!(s.name, "my_shell");
}

#[test]
fn has_a_string_name() {
    let root_path = root_path("/");
    let s = Shell::new(&String::from("my_shell"), &root_path);
    assert_eq!(s.name, "my_shell");
}

#[test]
fn can_resolve_its_path() {
    let root_path = root_path("/Users/geoff/.config/hermit");
    let s = Shell::new("default", &root_path);

    let expected_path = "/Users/geoff/.config/hermit/shells/default";
    assert_eq!(s.root_path(), expected_path);
}

#[test]
fn resolves_empty_string_to_root() {
    let root_path = root_path("/Users/geoff/.config/hermit");
    let s = Shell::new("default", &root_path);

    let expected_path = "/Users/geoff/.config/hermit/shells/default";
    assert_eq!(s.path_for(""), expected_path);
}

#[test]
fn can_resolve_paths() {
    let root_path = root_path("/Users/geoff/.config/hermit");
    let s = Shell::new("default", &root_path);

    let expected_path = "/Users/geoff/.config/hermit/shells/default/.bashrc";
    assert_eq!(s.path_for(".bashrc"), expected_path);
}

#[test]
fn joins_with_a_single_separator() {
    assert_eq!(join_paths("/a", "b"), "/a/b");
    assert_eq!(join_paths("/a/", "b"), "/a/b");
    assert_eq!(join_paths("/a", ""), "/a");
    assert_eq!(join_paths("", "b"), "b");
    assert_eq!(join_paths("/a", "/b"), "/b");
}

#[test]
fn validates_shell_names() {
    assert!(is_valid_shell_name("default"));
    assert!(is_valid_shell_name("new-one"));
    assert!(!is_valid_shell_name(""));
    assert!(!is_valid_shell_name(".."));
    assert!(!is_valid_shell_name("a/b"));
    assert!(is_valid_shell_name("..a"));
}
