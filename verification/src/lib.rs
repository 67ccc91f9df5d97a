//! Identify the interactive shell that launched the current process.
//!
//! The library holds the platform-independent core: classifying an
//! executable basename into a shell kind, walking the process ancestry
//! one step at a time, and parsing each shell's version output. All
//! operating-system access (process-table reads, spawning the version
//! command) is left to the caller, who feeds the results in as plain
//! values.

pub mod shell;
pub mod text;
pub mod version;
pub mod walk;

pub use shell::Shell;
pub use shell::classify;
pub use shell::get_file_name;
pub use version::ShellVersion;
pub use version::parse_version;
pub use version::version_command;
pub use walk::WalkStep;
pub use walk::Walker;
pub use walk::get_ppid;

use vstd::prelude::*;

verus! {

/// Classification and version parsing are pure: the contracts of
/// `classify` and `parse_version` pin each result to a spec function
/// of the input alone, so any two results obtained from equal inputs
/// are equal, however many calls apart, with no hidden state.
pub proof fn lemma_resolution_deterministic(
    k1: Shell,
    k2: Shell,
    v1: Option<Seq<char>>,
    v2: Option<Seq<char>>,
    name: Seq<char>,
    kind: Shell,
    raw: Seq<char>,
)
    requires
        k1 == shell::classify_spec(name),
        k2 == shell::classify_spec(name),
        v1 == version::parse_version_spec(kind, raw),
        v2 == version::parse_version_spec(kind, raw),
    ensures
        k1 == k2,
        v1 == v2,
{
}

} // verus!
