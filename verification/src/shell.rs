//! Shell detection and per-shell command formatting.

use crate::paths::{join_paths, join_paths_exec, lemma_join_split_roundtrip, split_paths,
    split_paths_exec, JoinPathsError};
use crate::text::{ends_with, str_ends_with, str_eq};
use vstd::prelude::*;
use vstd::string::StringExecFns;

verus! {

/// The shells this crate knows how to address.
#[derive(Clone, Copy, Debug, PartialEq, Eq, Structural)]
pub enum Shell {
    /// The Windows command interpreter.
    Windows,
    /// The default when the shell cannot be determined: most shells accept
    /// the same `export NAME='value'` syntax as bash.
    Bash,
    Tcsh,
    Zsh,
    Ksh,
}

/// The view of an optional environment value: its characters, if it is set.
pub open spec fn opt_view(v: Option<String>) -> Option<Seq<char>> {
    match v {
        None => None,
        Some(s) => Some(s@),
    }
}

/// The shell that the detection heuristic picks from the platform flag and
/// the four inspected environment values, in priority order: a Windows
/// platform wins outright; then a `BASH` value ending in `/bash`; then
/// `ZSH_NAME` equal to `zsh`; then a lowercase `shell` value ending in
/// `/tcsh`; finally the `SHELL` value by its suffix, with `Bash` as the
/// fallback for anything unrecognised or unset.
pub open spec fn detect_spec(
    is_windows: bool,
    bash: Option<Seq<char>>,
    zsh_name: Option<Seq<char>>,
    shell_lower: Option<Seq<char>>,
    shell_upper: Option<Seq<char>>,
) -> Shell {
    if is_windows {
        Shell::Windows
    } else if bash matches Some(b) && ends_with(b, "/bash"@) {
        Shell::Bash
    } else if zsh_name matches Some(z) && z == "zsh"@ {
        Shell::Zsh
    } else if shell_lower matches Some(s) && ends_with(s, "/tcsh"@) {
        Shell::Tcsh
    } else {
        match shell_upper {
            None => Shell::Bash,
            Some(s) => if ends_with(s, "/bash"@) {
                Shell::Bash
            } else if ends_with(s, "/ksh"@) {
                Shell::Ksh
            } else if ends_with(s, "/zsh"@) {
                Shell::Zsh
            } else if ends_with(s, "/tcsh"@) {
                Shell::Tcsh
            } else {
                Shell::Bash
            },
        }
    }
}

/// Classifies the running shell.  The caller reads the environment variables
/// `BASH`, `ZSH_NAME`, `shell` and `SHELL` (lossily decoded, so a non-UTF-8
/// value never fails detection) and says whether the platform is Windows;
/// detection itself is a pure function of those five inputs and never fails.
pub fn get_shell(
    is_windows: bool,
    bash: &Option<String>,
    zsh_name: &Option<String>,
    shell_lower: &Option<String>,
    shell_upper: &Option<String>,
) -> (r: Shell)
    ensures
        r == detect_spec(
            is_windows,
            opt_view(*bash),
            opt_view(*zsh_name),
            opt_view(*shell_lower),
            opt_view(*shell_upper),
        ),
{
    if is_windows {
        return Shell::Windows;
    }
    if let Some(b) = bash {
        if str_ends_with(b.as_str(), "/bash") {
            return Shell::Bash;
        }
    }
    if let Some(z) = zsh_name {
        if str_eq(z.as_str(), "zsh") {
            return Shell::Zsh;
        }
    }
    if let Some(s) = shell_lower {
        if str_ends_with(s.as_str(), "/tcsh") {
            return Shell::Tcsh;
        }
    }
    match shell_upper {
        None => Shell::Bash,
        Some(s) => {
            if str_ends_with(s.as_str(), "/bash") {
                Shell::Bash
            } else if str_ends_with(s.as_str(), "/ksh") {
                Shell::Ksh
            } else if str_ends_with(s.as_str(), "/zsh") {
                Shell::Zsh
            } else if str_ends_with(s.as_str(), "/tcsh") {
                Shell::Tcsh
            } else {
                Shell::Bash
            }
        },
    }
}

/// On a Windows platform, detection returns `Windows` whatever the
/// environment holds.
pub proof fn lemma_windows_detection(
    bash: Option<Seq<char>>,
    zsh_name: Option<Seq<char>>,
    shell_lower: Option<Seq<char>>,
    shell_upper: Option<Seq<char>>,
)
    ensures
        detect_spec(true, bash, zsh_name, shell_lower, shell_upper) == Shell::Windows,
{
}

/// On a non-Windows platform, a `BASH` value ending in `/bash` decides the
/// detection, whatever the other environment values hold.
pub proof fn lemma_bash_priority(
    bash: Seq<char>,
    zsh_name: Option<Seq<char>>,
    shell_lower: Option<Seq<char>>,
    shell_upper: Option<Seq<char>>,
)
    requires
        ends_with(bash, "/bash"@),
    ensures
        detect_spec(false, Some(bash), zsh_name, shell_lower, shell_upper) == Shell::Bash,
{
}

/// The display name of a shell.
pub open spec fn name_spec(sh: Shell) -> Seq<char> {
    match sh {
        Shell::Windows => "Windows"@,
        Shell::Bash => "bash"@,
        Shell::Tcsh => "tcsh"@,
        Shell::Zsh => "zsh"@,
        Shell::Ksh => "ksh"@,
    }
}

/// The directory-change command for `sh`, newline-terminated.  The path is
/// wrapped in quotes but characters inside it are not escaped.
pub open spec fn cd_command(sh: Shell, path: Seq<char>) -> Seq<char> {
    match sh {
        Shell::Windows => "cd /d \""@ + path + "\"\n"@,
        _ => "cd '"@ + path + "';\n"@,
    }
}

/// The environment-assignment command for `sh`, newline-terminated.  The
/// value is quoted on every shell but Windows; characters inside it are not
/// escaped.
pub open spec fn setenv_command(sh: Shell, name: Seq<char>, value: Seq<char>) -> Seq<char> {
    match sh {
        Shell::Windows => "set "@ + name + "="@ + value + "\n"@,
        Shell::Tcsh => "setenv "@ + name + " '"@ + value + "';\n"@,
        _ => "export "@ + name + "='"@ + value + "';\n"@,
    }
}

/// The path-list separator a shell uses: `;` on the Windows command
/// interpreter, `:` everywhere else.
pub open spec fn separator_spec(sh: Shell) -> char {
    match sh {
        Shell::Windows => ';',
        _ => ':',
    }
}

/// The segments of an environment value under `sh`'s path-list convention;
/// an unset value holds no segments at all.
pub open spec fn split_env_spec(sh: Shell, value: Option<Seq<char>>) -> Seq<Seq<char>> {
    match value {
        None => Seq::<Seq<char>>::empty(),
        Some(s) => split_paths(s, separator_spec(sh)),
    }
}

/// Round trip: splitting an environment value that holds the joined form of
/// one or more separator-free `segments` gives back exactly those segments,
/// in order.  (The empty segment list is left out: it joins to the empty
/// string, which splits into one empty segment.)
pub proof fn lemma_split_env_roundtrip(sh: Shell, segments: Seq<Seq<char>>)
    requires
        segments.len() > 0,
        forall|i: int|
            0 <= i < segments.len() ==> !(#[trigger] segments[i]).contains(separator_spec(sh)),
    ensures
        split_env_spec(sh, Some(join_paths(segments, separator_spec(sh)))) == segments,
{
    lemma_join_split_roundtrip(segments, separator_spec(sh));
}

impl Shell {
    /// Returns the name of this shell.
    pub fn get_name(&self) -> (r: &'static str)
        ensures
            r@ == name_spec(*self),
    {
        match *self {
            Shell::Windows => "Windows",
            Shell::Bash => "bash",
            Shell::Tcsh => "tcsh",
            Shell::Zsh => "zsh",
            Shell::Ksh => "ksh",
        }
    }

    /// Returns the command that changes the parent shell's directory to
    /// `path`, ready to be written to standard output.
    pub fn cd(&self, path: &str) -> (r: String)
        ensures
            r@ == cd_command(*self, path@),
    {
        match *self {
            Shell::Windows => {
                let mut out = "cd /d \"".to_owned();
                out.append(path);
                out.append("\"\n");
                out
            },
            _ => {
                let mut out = "cd '".to_owned();
                out.append(path);
                out.append("';\n");
                out
            },
        }
    }

    /// Returns the command that sets the environment variable `name` to
    /// `value` in the parent shell, ready to be written to standard output.
    pub fn setenv(&self, name: &str, value: &str) -> (r: String)
        ensures
            r@ == setenv_command(*self, name@, value@),
    {
        match *self {
            Shell::Windows => {
                let mut out = "set ".to_owned();
                out.append(name);
                out.append("=");
                out.append(value);
                out.append("\n");
                out
            },
            Shell::Tcsh => {
                let mut out = "setenv ".to_owned();
                out.append(name);
                out.append(" '");
                out.append(value);
                out.append("';\n");
                out
            },
            _ => {
                let mut out = "export ".to_owned();
                out.append(name);
                out.append("='");
                out.append(value);
                out.append("';\n");
                out
            },
        }
    }

    /// Splits an environment value (as read by the caller; `None` when the
    /// variable is unset) under this shell's path-list convention.  An unset
    /// variable yields an empty vector, never a failure.
    pub fn split_env(&self, value: &Option<String>) -> (r: Vec<String>)
        ensures
            r.deep_view() == split_env_spec(*self, opt_view(*value)),
    {
        match value {
            None => {
                let r: Vec<String> = Vec::new();
                proof {
                    assert(r.deep_view() =~~= Seq::<Seq<char>>::empty());
                }
                r
            },
            Some(s) => {
                let sep: char = match *self {
                    Shell::Windows => ';',
                    _ => ':',
                };
                split_paths_exec(s.as_str(), sep)
            },
        }
    }

    /// Returns the command that sets `name` to the path-list joining
    /// `segments`, or the error when some segment holds the separator
    /// character itself and so cannot be represented in a path-list.
    pub fn setenv_list(&self, name: &str, segments: &Vec<String>) -> (r: Result<
        String,
        JoinPathsError,
    >)
        ensures
            (r is Ok) <==> (forall|i: int|
                0 <= i < segments.deep_view().len() ==> !(
                #[trigger] segments.deep_view()[i]).contains(separator_spec(*self))),
            r matches Ok(cmd) ==> cmd@ == setenv_command(
                *self,
                name@,
                join_paths(segments.deep_view(), separator_spec(*self)),
            ),
    {
        let sep: char = match *self {
            Shell::Windows => ';',
            _ => ':',
        };
        let sep_str: &str = match *self {
            Shell::Windows => ";",
            _ => ":",
        };
        proof {
            reveal_strlit(";");
            reveal_strlit(":");
            assert(sep_str@ =~= seq![sep]);
        }
        match join_paths_exec(segments, sep, sep_str) {
            Ok(joined) => Ok(self.setenv(name, joined.as_str())),
            Err(e) => Err(e),
        }
    }
}

} // verus!
