//! The closed set of recognized shells, the classification of an
//! executable basename into one of them, and the extraction of that
//! basename from a path.

use vstd::prelude::*;

use crate::text::{find_at, find_before, find_char, rfind_char, trim_spec, trim_str, str_eq};

verus! {

/// A recognized interactive shell, or `Unknown` for anything else.
#[derive(Debug, Clone, Copy, PartialEq, Eq, Hash, Structural)]
pub enum Shell {
    Bash,
    Zsh,
    Fish,
    PowerShell,
    Pwsh,
    Cmd,
    Nu,
    Dash,
    Ksh,
    Tcsh,
    Csh,
    Sh,
    Unknown,
}

/// The fixed classification table: which kind a canonical executable
/// basename denotes. Every name outside the table is `Unknown`.
/// `OpenConsole`, a terminal host process, is deliberately treated as
/// `PowerShell`: a platform quirk kept as a heuristic, not a rule to
/// extend.
pub open spec fn classify_spec(name: Seq<char>) -> Shell {
    if name == "fish"@ {
        Shell::Fish
    } else if name == "zsh"@ {
        Shell::Zsh
    } else if name == "OpenConsole"@ {
        Shell::PowerShell
    } else if name == "powershell"@ {
        Shell::PowerShell
    } else if name == "bash"@ {
        Shell::Bash
    } else if name == "pwsh"@ {
        Shell::Pwsh
    } else if name == "cmd"@ {
        Shell::Cmd
    } else if name == "nu"@ {
        Shell::Nu
    } else if name == "dash"@ {
        Shell::Dash
    } else if name == "ksh"@ {
        Shell::Ksh
    } else if name == "ksh93"@ {
        Shell::Ksh
    } else if name == "tcsh"@ {
        Shell::Tcsh
    } else if name == "csh"@ {
        Shell::Csh
    } else if name == "bsd-csh"@ {
        Shell::Csh
    } else if name == "sh"@ {
        Shell::Sh
    } else {
        Shell::Unknown
    }
}

/// Whether a basename stands in the classification table.
pub open spec fn is_known_name(name: Seq<char>) -> bool {
    ||| name == "fish"@
    ||| name == "zsh"@
    ||| name == "OpenConsole"@
    ||| name == "powershell"@
    ||| name == "bash"@
    ||| name == "pwsh"@
    ||| name == "cmd"@
    ||| name == "nu"@
    ||| name == "dash"@
    ||| name == "ksh"@
    ||| name == "ksh93"@
    ||| name == "tcsh"@
    ||| name == "csh"@
    ||| name == "bsd-csh"@
    ||| name == "sh"@
}

/// Classification is total and hits `Unknown` exactly on the names
/// outside the table: a known kind comes from a table entry and
/// nothing else.
pub proof fn lemma_classify_total(name: Seq<char>)
    ensures
        classify_spec(name) != Shell::Unknown <==> is_known_name(name),
{
}

/// Map an executable basename to its shell kind. Total: unmatched
/// names yield `Shell::Unknown`, never an error.
pub fn classify(name: &str) -> (r: Shell)
    ensures
        r == classify_spec(name@),
{
    if str_eq(name, "fish") {
        Shell::Fish
    } else if str_eq(name, "zsh") {
        Shell::Zsh
    } else if str_eq(name, "OpenConsole") {
        Shell::PowerShell
    } else if str_eq(name, "powershell") {
        Shell::PowerShell
    } else if str_eq(name, "bash") {
        Shell::Bash
    } else if str_eq(name, "pwsh") {
        Shell::Pwsh
    } else if str_eq(name, "cmd") {
        Shell::Cmd
    } else if str_eq(name, "nu") {
        Shell::Nu
    } else if str_eq(name, "dash") {
        Shell::Dash
    } else if str_eq(name, "ksh") {
        Shell::Ksh
    } else if str_eq(name, "ksh93") {
        Shell::Ksh
    } else if str_eq(name, "tcsh") {
        Shell::Tcsh
    } else if str_eq(name, "csh") {
        Shell::Csh
    } else if str_eq(name, "bsd-csh") {
        Shell::Csh
    } else if str_eq(name, "sh") {
        Shell::Sh
    } else {
        Shell::Unknown
    }
}

/// The display name of a shell kind: also the executable to invoke
/// for a version query.
pub open spec fn name_spec(sh: Shell) -> Seq<char> {
    match sh {
        Shell::Fish => "fish"@,
        Shell::Zsh => "zsh"@,
        Shell::Bash => "bash"@,
        Shell::PowerShell => "powershell"@,
        Shell::Cmd => "cmd"@,
        Shell::Pwsh => "pwsh"@,
        Shell::Nu => "nu"@,
        Shell::Dash => "dash"@,
        Shell::Ksh => "ksh"@,
        Shell::Tcsh => "tcsh"@,
        Shell::Csh => "csh"@,
        Shell::Sh => "sh"@,
        Shell::Unknown => "unknown"@,
    }
}

impl Shell {
    /// The display name of this kind.
    pub fn name(&self) -> (r: String)
        ensures
            r@ == name_spec(*self),
    {
        match self {
            Shell::Fish => "fish".to_owned(),
            Shell::Zsh => "zsh".to_owned(),
            Shell::Bash => "bash".to_owned(),
            Shell::PowerShell => "powershell".to_owned(),
            Shell::Cmd => "cmd".to_owned(),
            Shell::Pwsh => "pwsh".to_owned(),
            Shell::Nu => "nu".to_owned(),
            Shell::Dash => "dash".to_owned(),
            Shell::Ksh => "ksh".to_owned(),
            Shell::Tcsh => "tcsh".to_owned(),
            Shell::Csh => "csh".to_owned(),
            Shell::Sh => "sh".to_owned(),
            Shell::Unknown => "unknown".to_owned(),
        }
    }
}

/// The canonical basename of an executable path: the last segment
/// after either kind of path separator, cut before the first `.`, with
/// surrounding whitespace trimmed.
pub open spec fn basename_spec(path: Seq<char>) -> Seq<char> {
    let fa = find_before(path, path.len() - 1, '/');
    let fb = find_before(path, path.len() - 1, '\\');
    let start = if fa >= fb {
        fa + 1
    } else {
        fb + 1
    };
    let seg = path.subrange(start, path.len() as int);
    let name = seg.subrange(0, find_at(seg, 0, '.'));
    trim_spec(name)
}

/// Extract the canonical basename of an executable name or path,
/// normalizing both `/` and `\` separators. Always produces a value.
pub fn get_file_name(path: &str) -> (r: Option<String>)
    ensures
        r matches Some(name) && name@ == basename_spec(path@),
{
    let n = path.unicode_len();
    let fa = rfind_char(path, n, '/');
    let fb = rfind_char(path, n, '\\');
    let start: usize = match (fa, fb) {
        (Some(i), Some(j)) => if i >= j {
            i + 1
        } else {
            j + 1
        },
        (Some(i), None) => i + 1,
        (None, Some(j)) => j + 1,
        (None, None) => 0,
    };
    let seg = path.substring_char(start, n);
    let k = find_char(seg, 0, '.');
    let name = seg.substring_char(0, k);
    Some(trim_str(name).to_owned())
}

} // verus!
