//! Exact command text per shell, and the path-list operations.

use setenv::{JoinPathsError, Shell};

#[test]
fn cd_bash_quotes_with_single_quotes() {
    assert_eq!(Shell::Bash.cd("/tmp/my dir"), "cd '/tmp/my dir';\n");
}

#[test]
fn cd_windows_quotes_with_double_quotes() {
    assert_eq!(Shell::Windows.cd("/tmp/my dir"), "cd /d \"/tmp/my dir\"\n");
}

#[test]
fn cd_other_shells_use_the_bash_form() {
    assert_eq!(Shell::Zsh.cd("/home"), "cd '/home';\n");
    assert_eq!(Shell::Ksh.cd("/home"), "cd '/home';\n");
    assert_eq!(Shell::Tcsh.cd("/home"), "cd '/home';\n");
}

#[test]
fn setenv_tcsh() {
    assert_eq!(Shell::Tcsh.setenv("FOO", "bar"), "setenv FOO 'bar';\n");
}

#[test]
fn setenv_export_family() {
    assert_eq!(Shell::Bash.setenv("FOO", "bar"), "export FOO='bar';\n");
    assert_eq!(Shell::Zsh.setenv("FOO", "bar"), "export FOO='bar';\n");
    assert_eq!(Shell::Ksh.setenv("FOO", "bar"), "export FOO='bar';\n");
}

#[test]
fn setenv_windows_is_unquoted() {
    assert_eq!(Shell::Windows.setenv("FOO", "bar"), "set FOO=bar\n");
}

#[test]
fn setenv_list_joins_with_colon_off_windows() {
    let segments = vec!["/a".to_string(), "/b".to_string(), "/c".to_string()];
    assert_eq!(
        Shell::Bash.setenv_list("PATH", &segments),
        Ok("export PATH='/a:/b:/c';\n".to_string())
    );
}

#[test]
fn setenv_list_joins_with_semicolon_on_windows() {
    let segments = vec!["/a".to_string(), "/b".to_string(), "/c".to_string()];
    assert_eq!(
        Shell::Windows.setenv_list("PATH", &segments),
        Ok("set PATH=/a;/b;/c\n".to_string())
    );
}

#[test]
fn setenv_list_single_segment_has_no_separator() {
    let segments = vec!["/only".to_string()];
    assert_eq!(
        Shell::Ksh.setenv_list("PATH", &segments),
        Ok("export PATH='/only';\n".to_string())
    );
}

#[test]
fn setenv_list_rejects_a_segment_holding_the_separator() {
    let segments = vec!["/a".to_string(), "/b:/c".to_string()];
    assert_eq!(Shell::Bash.setenv_list("PATH", &segments), Err(JoinPathsError));
}

#[test]
fn setenv_list_separator_is_per_shell() {
    // A colon is fine inside a Windows path-list, and a semicolon is fine
    // inside a Unix one.
    let with_colon = vec!["/a:/b".to_string()];
    assert_eq!(
        Shell::Windows.setenv_list("PATH", &with_colon),
        Ok("set PATH=/a:/b\n".to_string())
    );
    let with_semicolon = vec!["/a;/b".to_string()];
    assert_eq!(
        Shell::Bash.setenv_list("PATH", &with_semicolon),
        Ok("export PATH='/a;/b';\n".to_string())
    );
    assert_eq!(
        Shell::Windows.setenv_list("PATH", &with_semicolon),
        Err(JoinPathsError)
    );
}

#[test]
fn split_env_unset_is_empty() {
    assert_eq!(Shell::Bash.split_env(&None), Vec::<String>::new());
    assert_eq!(Shell::Windows.split_env(&None), Vec::<String>::new());
}

#[test]
fn split_env_splits_on_the_shell_separator() {
    let value = Some("/a:/b:/c".to_string());
    assert_eq!(
        Shell::Bash.split_env(&value),
        vec!["/a".to_string(), "/b".to_string(), "/c".to_string()]
    );
    let windows_value = Some("/a;/b".to_string());
    assert_eq!(
        Shell::Windows.split_env(&windows_value),
        vec!["/a".to_string(), "/b".to_string()]
    );
}

#[test]
fn split_env_keeps_empty_segments() {
    let value = Some("/a::/b".to_string());
    assert_eq!(
        Shell::Zsh.split_env(&value),
        vec!["/a".to_string(), "".to_string(), "/b".to_string()]
    );
    let empty = Some("".to_string());
    assert_eq!(Shell::Zsh.split_env(&empty), vec!["".to_string()]);
}

#[test]
fn split_after_join_round_trips() {
    let segments = vec!["/usr/bin".to_string(), "/bin".to_string(), "/opt/x y".to_string()];
    let joined = segments.join(":");
    assert_eq!(Shell::Bash.split_env(&Some(joined)), segments);

    let joined_windows = segments.join(";");
    assert_eq!(Shell::Windows.split_env(&Some(joined_windows)), segments);
}
