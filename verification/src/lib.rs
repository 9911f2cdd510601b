//! Emit shell commands that a parent shell can evaluate.
//!
//! A child process cannot change the working directory or the environment of
//! the shell that launched it.  What it can do is print the commands that
//! would make those changes, in the syntax of that shell, and rely on a small
//! wrapper (an alias, a shell function, a batch file) that the user installs
//! to `eval` everything the child writes to standard output.
//!
//! This crate holds the two decisions that make this work, each with a
//! machine-checked contract:
//!
//! 1. detection: classify the running shell from the environment variables
//!    `BASH`, `ZSH_NAME`, `shell` and `SHELL` ([`get_shell`]), falling back to
//!    [`Shell::Bash`] when nothing matches, since most shells accept the
//!    `export NAME=value` syntax;
//! 2. formatting: given a [`Shell`], produce the exact command text to change
//!    directory ([`Shell::cd`]), to set an environment variable
//!    ([`Shell::setenv`]), or to set one from a list of path segments
//!    ([`Shell::setenv_list`]); [`Shell::split_env`] is the matching read-side
//!    helper that splits a path-list value back into its segments.
//!
//! The functions here compute text and never touch the process environment or
//! standard output themselves; reading the real environment variables and
//! printing the commands is left to the (unverified) caller.  Since the parent
//! shell evaluates everything printed on standard output, a caller must keep
//! every diagnostic message on standard error.
//!
//! Embedded quote characters in paths and values are not escaped; this is a
//! known limitation of the emitted quoting, kept as part of the observable
//! behaviour.

mod paths;
mod shell;
mod text;

pub use paths::{
    join_paths, lemma_join_split_roundtrip, lemma_split_append, lemma_split_no_separator,
    split_paths, JoinPathsError,
};
pub use shell::{
    cd_command, detect_spec, get_shell, lemma_bash_priority, lemma_split_env_roundtrip,
    lemma_windows_detection, name_spec, opt_view, separator_spec, setenv_command, split_env_spec,
    Shell,
};
pub use text::ends_with;
