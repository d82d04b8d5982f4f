use sysfacts::shell::get_shell_name;

#[test]
fn shell_name_is_last_path_component() {
    assert_eq!(get_shell_name(Some("/usr/bin/zsh".to_string())), "zsh");
    assert_eq!(get_shell_name(Some("/bin/bash".to_string())), "bash");
}

#[test]
fn shell_name_without_slash() {
    assert_eq!(get_shell_name(Some("fish".to_string())), "fish");
}

#[test]
fn shell_name_splits_on_spaces_too() {
    assert_eq!(get_shell_name(Some("/opt/my shell".to_string())), "shell");
}

#[test]
fn shell_name_of_trailing_slash_is_empty() {
    assert_eq!(get_shell_name(Some("/usr/bin/".to_string())), "");
}

#[test]
fn shell_name_of_unset_variable() {
    assert_eq!(get_shell_name(None), "Unknown");
}
