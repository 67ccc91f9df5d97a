//! Per-shell version extraction: the command each shell answers with
//! its version, and the kind-specific rule that cuts the bare version
//! out of that command's output. No shell reports its version in a
//! common format, so each rule is its own small piece of text surgery.
//! Every rule degrades to an absent version on unexpected input; none
//! of them fails.

use vstd::prelude::*;

use crate::shell::{Shell, name_spec};
use crate::text::{find_at, find_before, find_char, rfind_char, trim_spec, trim_str};

verus! {

/// A resolved shell: its kind, and a best-effort version that may be
/// absent without making the resolution a failure.
#[derive(Debug, Clone, PartialEq, Eq, Hash)]
pub struct ShellVersion {
    pub shell: Shell,
    pub version: Option<String>,
}

/// The first triple of digit runs separated by single characters in
/// the text, as `regex` finds it: a function of the text alone, named
/// here rather than spelled out, and exercised only through
/// `capture_triplet`.
pub uninterp spec fn version_triplet(s: Seq<char>) -> Option<(Seq<char>, Seq<char>, Seq<char>)>;

/// Relies on `regex::Regex::captures` with the fixed pattern
/// `([0-9]+).([0-9]+).([0-9]+)`: it returns the leftmost match, a
/// function of the haystack alone, and on a match all three groups
/// are present.
#[verifier::external_body]
fn capture_triplet(s: &str) -> (r: Option<(String, String, String)>)
    ensures
        match r {
            Some(t) => version_triplet(s@) == Some((t.0@, t.1@, t.2@)),
            None => version_triplet(s@) is None,
        },
{
    let re = regex::Regex::new("([0-9]+).([0-9]+).([0-9]+)").ok()?;
    let cap = re.captures(s)?;
    match (cap.get(1), cap.get(2), cap.get(3)) {
        (Some(a), Some(b), Some(c)) => Some((
            a.as_str().to_owned(),
            b.as_str().to_owned(),
            c.as_str().to_owned(),
        )),
        _ => None,
    }
}

/// Strip a known prefix of `k` characters and trim the rest; absent
/// when the text is shorter than the prefix.
pub open spec fn tail_after_spec(s: Seq<char>, k: int) -> Option<Seq<char>> {
    if s.len() >= k {
        Some(trim_spec(s.subrange(k, s.len() as int)))
    } else {
        None
    }
}

/// The first `major.minor.patch` digit triple in the text, joined
/// with dots; absent when the text holds no such triple.
pub open spec fn bash_version_spec(s: Seq<char>) -> Option<Seq<char>> {
    match version_triplet(s) {
        Some(t) => Some(t.0 + "."@ + t.1 + "."@ + t.2),
        None => None,
    }
}

/// The last whitespace-delimited token of the first line, cut before
/// the first `]`, trimmed; absent only for empty text. Fits the
/// locale-variable `Microsoft Windows [Version x.y.z.w]` banner.
pub open spec fn cmd_version_spec(s: Seq<char>) -> Option<Seq<char>> {
    if s.len() == 0 {
        None
    } else {
        let line = s.subrange(0, find_at(s, 0, '\n'));
        let tok = line.subrange(find_before(line, line.len() - 1, ' ') + 1, line.len() as int);
        Some(trim_spec(tok.subrange(0, find_at(tok, 0, ']'))))
    }
}

/// The first space-delimited token of the segment after the first
/// `/`, trimmed; absent when the text holds no `/`. Fits
/// `Version AJM 93u+m/1.0.8 2024-01-01`.
pub open spec fn ksh_version_spec(s: Seq<char>) -> Option<Seq<char>> {
    let i = find_at(s, 0, '/');
    if i == s.len() {
        None
    } else {
        let seg = s.subrange(i + 1, find_at(s, i + 1, '/'));
        Some(trim_spec(seg.subrange(0, find_at(seg, 0, ' '))))
    }
}

/// The second space-delimited token, trimmed; absent when the text
/// holds no space. Fits `zsh 5.9 (...)` and `tcsh 6.24.13 (...)`.
pub open spec fn second_token_spec(s: Seq<char>) -> Option<Seq<char>> {
    let i = find_at(s, 0, ' ');
    if i == s.len() {
        None
    } else {
        Some(trim_spec(s.subrange(i + 1, find_at(s, i + 1, ' '))))
    }
}

/// The version a kind's rule extracts from raw version-command
/// output. Kinds without a rule have no version.
pub open spec fn parse_version_spec(sh: Shell, s: Seq<char>) -> Option<Seq<char>> {
    match sh {
        Shell::Fish => tail_after_spec(s, 14),
        Shell::Pwsh => tail_after_spec(s, 11),
        Shell::Bash => bash_version_spec(s),
        Shell::Cmd => cmd_version_spec(s),
        Shell::PowerShell => Some(s),
        Shell::Nu => Some(s),
        Shell::Ksh => ksh_version_spec(s),
        Shell::Zsh => second_token_spec(s),
        Shell::Tcsh => second_token_spec(s),
        _ => None,
    }
}

fn tail_from(s: &str, k: usize) -> (r: Option<String>)
    ensures
        r.deep_view() == tail_after_spec(s@, k as int),
{
    let n = s.unicode_len();
    if n >= k {
        Some(trim_str(s.substring_char(k, n)).to_owned())
    } else {
        None
    }
}

fn bash_version(s: &str) -> (r: Option<String>)
    ensures
        r.deep_view() == bash_version_spec(s@),
{
    match capture_triplet(s) {
        Some((a, b, c)) => Some(a.concat(".").concat(b.as_str()).concat(".").concat(c.as_str())),
        None => None,
    }
}

fn cmd_version(s: &str) -> (r: Option<String>)
    ensures
        r.deep_view() == cmd_version_spec(s@),
{
    let n = s.unicode_len();
    if n == 0 {
        return None;
    }
    let e = find_char(s, 0, '\n');
    let line = s.substring_char(0, e);
    let start: usize = match rfind_char(line, e, ' ') {
        Some(j) => j + 1,
        None => 0,
    };
    let tok = line.substring_char(start, e);
    let k = find_char(tok, 0, ']');
    Some(trim_str(tok.substring_char(0, k)).to_owned())
}

fn ksh_version(s: &str) -> (r: Option<String>)
    ensures
        r.deep_view() == ksh_version_spec(s@),
{
    let n = s.unicode_len();
    let i = find_char(s, 0, '/');
    if i == n {
        return None;
    }
    let j = find_char(s, i + 1, '/');
    let seg = s.substring_char(i + 1, j);
    let k = find_char(seg, 0, ' ');
    Some(trim_str(seg.substring_char(0, k)).to_owned())
}

fn second_token(s: &str) -> (r: Option<String>)
    ensures
        r.deep_view() == second_token_spec(s@),
{
    let n = s.unicode_len();
    let i = find_char(s, 0, ' ');
    if i == n {
        return None;
    }
    let j = find_char(s, i + 1, ' ');
    Some(trim_str(s.substring_char(i + 1, j)).to_owned())
}

/// Extract the version from raw version-command output by the rule of
/// the given kind. Total: output that does not fit the rule, and kinds
/// without a rule, yield an absent version, never an error.
pub fn parse_version(sh: Shell, raw: &str) -> (r: Option<String>)
    ensures
        r.deep_view() == parse_version_spec(sh, raw@),
{
    match sh {
        Shell::Fish => tail_from(raw, 14),
        Shell::Pwsh => tail_from(raw, 11),
        Shell::Bash => bash_version(raw),
        Shell::Cmd => cmd_version(raw),
        Shell::PowerShell => Some(raw.to_owned()),
        Shell::Nu => Some(raw.to_owned()),
        Shell::Ksh => ksh_version(raw),
        Shell::Zsh => second_token(raw),
        Shell::Tcsh => second_token(raw),
        Shell::Dash | Shell::Csh | Shell::Sh | Shell::Unknown => None,
    }
}

/// The arguments of a kind's version-reporting command: PowerShell is
/// asked for its version table, ksh for its version variable, and
/// every other shell for `--version`.
pub open spec fn version_args_spec(sh: Shell) -> Seq<Seq<char>> {
    match sh {
        Shell::PowerShell => seq!["-c"@, "$PSVersionTable.PSVersion -replace '\\D', '.'"@],
        Shell::Ksh => seq!["-c"@, "echo $KSH_VERSION"@],
        _ => seq!["--version"@],
    }
}

/// The program and arguments that make a kind report its version; the
/// caller runs them and hands the captured output to `parse_version`.
pub fn version_command(sh: Shell) -> (r: (String, Vec<String>))
    ensures
        r.0@ == name_spec(sh),
        r.1.deep_view() == version_args_spec(sh),
{
    let name = sh.name();
    let mut args: Vec<String> = Vec::new();
    match sh {
        Shell::PowerShell => {
            args.push("-c".to_owned());
            args.push("$PSVersionTable.PSVersion -replace '\\D', '.'".to_owned());
        },
        Shell::Ksh => {
            args.push("-c".to_owned());
            args.push("echo $KSH_VERSION".to_owned());
        },
        _ => {
            args.push("--version".to_owned());
        },
    }
    proof {
        assert(args.deep_view() =~= version_args_spec(sh));
    }
    (name, args)
}

/// The display form of a resolved shell: its name, followed by the
/// version when one was found.
pub open spec fn display_spec(sv: ShellVersion) -> Seq<char> {
    match sv.version {
        Some(v) => name_spec(sv.shell) + " "@ + v@,
        None => name_spec(sv.shell),
    }
}

impl ShellVersion {
    /// Pair a resolved kind with the version its rule extracts from
    /// the captured command output. A failed invocation (`None`) or
    /// unparseable output costs only the version: the kind stands.
    pub fn from_output(shell: Shell, output: Option<String>) -> (r: ShellVersion)
        ensures
            r.shell == shell,
            output is None ==> r.version is None,
            output matches Some(raw) ==> r.version.deep_view() == parse_version_spec(
                shell,
                raw@,
            ),
    {
        match output {
            Some(raw) => ShellVersion { shell, version: parse_version(shell, raw.as_str()) },
            None => ShellVersion { shell, version: None },
        }
    }

    /// The display form: `"<kind>"`, or `"<kind> <version>"` when a
    /// version was found.
    pub fn display_string(&self) -> (r: String)
        ensures
            r@ == display_spec(*self),
    {
        match &self.version {
            Some(v) => self.shell.name().concat(" ").concat(v.as_str()),
            None => self.shell.name(),
        }
    }
}

} // verus!
