use configman::{destination_for, expand, join_path, relative_path, should_visit};

#[test]
fn expand_replaces_leading_tilde() {
    assert_eq!(expand("~/dotfiles", "/home/ann"), "/home/ann/dotfiles");
    assert_eq!(expand("~", "/home/ann"), "/home/ann");
}

#[test]
fn expand_keeps_other_paths() {
    assert_eq!(expand("/etc/~x", "/home/ann"), "/etc/~x");
    assert_eq!(expand("", "/home/ann"), "");
    assert_eq!(expand("rel/path", "/home/ann"), "rel/path");
}

#[test]
fn relative_path_under_root() {
    assert_eq!(relative_path("/src", "/src/a.txt"), Some("a.txt".to_string()));
    assert_eq!(relative_path("/src", "/src/sub/b.txt"), Some("sub/b.txt".to_string()));
    assert_eq!(relative_path("/src", "/src"), Some(String::new()));
    assert_eq!(relative_path("/", "/etc/x"), Some("etc/x".to_string()));
}

#[test]
fn relative_path_outside_root() {
    assert_eq!(relative_path("/src", "/srcx/a"), None);
    assert_eq!(relative_path("/src", "/other/a"), None);
    assert_eq!(relative_path("/src/deep", "/src"), None);
}

#[test]
fn join_path_adds_one_separator() {
    assert_eq!(join_path("/home/ann", "a.txt"), "/home/ann/a.txt");
    assert_eq!(join_path("/", "a.txt"), "/a.txt");
    assert_eq!(join_path("/home/ann", ""), "/home/ann");
}

#[test]
fn destination_mirrors_source_layout() {
    assert_eq!(
        destination_for("/src", "/home/ann", "/src/sub/b.txt"),
        Some("/home/ann/sub/b.txt".to_string())
    );
    assert_eq!(destination_for("/src", "/home/ann", "/src"), Some("/home/ann".to_string()));
    assert_eq!(destination_for("/src", "/home/ann", "/elsewhere/b.txt"), None);
}

#[test]
fn git_directories_are_never_visited() {
    assert!(!should_visit(".git"));
    assert!(!should_visit(".git/config"));
    assert!(!should_visit("sub/.git"));
    assert!(!should_visit("sub/.git/objects/ab"));
}

#[test]
fn other_entries_are_visited() {
    assert!(should_visit(".gitignore"));
    assert!(should_visit("a.git"));
    assert!(should_visit("sub/.gitconfig"));
    assert!(should_visit(".bashrc"));
    assert!(should_visit("sub/x.git/y"));
}

#[test]
fn root_is_not_an_entry() {
    assert!(!should_visit(""));
}
