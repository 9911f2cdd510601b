//! Shell detection on fixed environment snapshots.

use setenv::{get_shell, Shell};

fn env(v: &str) -> Option<String> {
    Some(v.to_string())
}

#[test]
fn all_unset_defaults_to_bash() {
    assert_eq!(get_shell(false, &None, &None, &None, &None), Shell::Bash);
}

#[test]
fn shell_var_zsh() {
    assert_eq!(
        get_shell(false, &None, &None, &None, &env("/usr/bin/zsh")),
        Shell::Zsh
    );
}

#[test]
fn shell_var_tcsh() {
    assert_eq!(
        get_shell(false, &None, &None, &None, &env("/bin/tcsh")),
        Shell::Tcsh
    );
}

#[test]
fn shell_var_ksh() {
    assert_eq!(
        get_shell(false, &None, &None, &None, &env("/bin/ksh")),
        Shell::Ksh
    );
}

#[test]
fn shell_var_unrecognised_falls_back_to_bash() {
    assert_eq!(
        get_shell(false, &None, &None, &None, &env("/nonstandard/shellX")),
        Shell::Bash
    );
}

#[test]
fn shell_var_bash() {
    assert_eq!(
        get_shell(false, &None, &None, &None, &env("/bin/bash")),
        Shell::Bash
    );
}

#[test]
fn bash_var_wins_over_shell_var() {
    assert_eq!(
        get_shell(false, &env("/bin/bash"), &None, &None, &env("/usr/bin/zsh")),
        Shell::Bash
    );
    assert_eq!(
        get_shell(
            false,
            &env("/bin/bash"),
            &env("zsh"),
            &env("/bin/tcsh"),
            &env("/bin/tcsh")
        ),
        Shell::Bash
    );
}

#[test]
fn bash_var_with_other_suffix_falls_through() {
    assert_eq!(
        get_shell(false, &env("/bin/dash"), &None, &None, &env("/usr/bin/zsh")),
        Shell::Zsh
    );
}

#[test]
fn zsh_name_must_match_exactly() {
    assert_eq!(
        get_shell(false, &None, &env("zsh"), &None, &None),
        Shell::Zsh
    );
    assert_eq!(
        get_shell(false, &None, &env("notzsh"), &None, &None),
        Shell::Bash
    );
}

#[test]
fn lowercase_shell_var_tcsh() {
    assert_eq!(
        get_shell(false, &None, &None, &env("/bin/tcsh"), &None),
        Shell::Tcsh
    );
    assert_eq!(
        get_shell(false, &None, &None, &env("/bin/sh"), &None),
        Shell::Bash
    );
}

#[test]
fn windows_ignores_environment() {
    assert_eq!(get_shell(true, &None, &None, &None, &None), Shell::Windows);
    assert_eq!(
        get_shell(
            true,
            &env("/bin/bash"),
            &env("zsh"),
            &env("/bin/tcsh"),
            &env("/usr/bin/zsh")
        ),
        Shell::Windows
    );
}

#[test]
fn get_name_per_shell() {
    assert_eq!(Shell::Windows.get_name(), "Windows");
    assert_eq!(Shell::Bash.get_name(), "bash");
    assert_eq!(Shell::Tcsh.get_name(), "tcsh");
    assert_eq!(Shell::Zsh.get_name(), "zsh");
    assert_eq!(Shell::Ksh.get_name(), "ksh");
}
