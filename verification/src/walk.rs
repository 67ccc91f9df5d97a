//! The ancestry walk, driven one step at a time. The caller queries
//! its platform's process table for the parent of the current process
//! and feeds the answer in; the walk decides whether a shell was
//! found, whether to climb further, or whether to stop. A fuel bound
//! keeps a process table that reports a cycle from looping forever.
//! Parsing of the textual process-status table a Unix caller reads is
//! here too.

use vstd::prelude::*;

use crate::shell::{Shell, basename_spec, classify, classify_spec, get_file_name};
use crate::text::{find_at, find_char, parse_u32, parse_u32_spec, str_eq, trim_spec, trim_str};

verus! {

/// The most ancestry steps a walk will take before giving up: a
/// defensive bound, far above the depth of any real process tree.
pub const MAX_WALK_DEPTH: u32 = 4096;

/// What one ancestry step decided.
#[derive(Debug, Clone, Copy, PartialEq, Eq, Structural)]
pub enum WalkStep {
    /// The parent is a recognized shell of this kind.
    Found(Shell),
    /// The parent is not a shell; the walk moved up to it. Ask for its
    /// parent next.
    Next,
    /// No parent was available, or the fuel bound was hit: the walk is
    /// over with no result.
    Halt,
}

/// An ancestry walk in progress: the process whose parent is asked
/// for next, and the remaining fuel.
pub struct Walker {
    pub pid: u32,
    pub fuel: u32,
}

impl Walker {
    /// Start a walk at the given process.
    pub fn new(pid: u32) -> (w: Walker)
        ensures
            w.pid == pid,
            w.fuel == MAX_WALK_DEPTH,
    {
        Walker { pid, fuel: MAX_WALK_DEPTH }
    }

    /// Consume one answer of the ancestry provider: the parent pid and
    /// executable name of `self.pid`, or `None` when the provider
    /// could not produce one (root reached, process vanished,
    /// permission denied). Classifying the parent's basename either
    /// ends the walk with its kind, or moves it up one step; each
    /// `Next` strictly lowers the fuel, so a driving loop terminates.
    pub fn step(&mut self, parent: Option<(u32, String)>) -> (r: WalkStep)
        ensures
            match parent {
                None => r is Halt && *final(self) == *old(self),
                Some(p) => {
                    let kind = classify_spec(basename_spec(p.1@));
                    if kind != Shell::Unknown {
                        r == WalkStep::Found(kind) && *final(self) == *old(self)
                    } else if old(self).fuel == 0 {
                        r is Halt && *final(self) == *old(self)
                    } else {
                        r is Next && final(self).pid == p.0 && final(self).fuel == old(
                            self,
                        ).fuel - 1
                    }
                },
            },
    {
        match parent {
            None => WalkStep::Halt,
            Some((ppid, name)) => {
                let base = match get_file_name(name.as_str()) {
                    Some(b) => b,
                    None => {
                        proof {
                            assert(false);
                        }
                        return WalkStep::Halt;
                    },
                };
                let kind = classify(base.as_str());
                if kind != Shell::Unknown {
                    WalkStep::Found(kind)
                } else if self.fuel == 0 {
                    WalkStep::Halt
                } else {
                    self.fuel = self.fuel - 1;
                    self.pid = ppid;
                    WalkStep::Next
                }
            },
        }
    }
}

/// The parent pid a line of the process-status table reports: defined
/// for a line of the form `PPid:<spaces><digits>`.
pub open spec fn ppid_of_line(line: Seq<char>) -> Option<u32> {
    if line.len() >= 5 && line.subrange(0, 5) == "PPid:"@ {
        parse_u32_spec(trim_spec(line.subrange(5, line.len() as int)))
    } else {
        None
    }
}

/// The parent pid the status text reports from line start `from` on:
/// the value of the first line that carries one.
pub open spec fn ppid_in_status(s: Seq<char>, from: int) -> Option<u32>
    recommends
        0 <= from,
    decreases s.len() + 1 - from,
{
    if from > s.len() {
        None
    } else {
        let e0 = find_at(s, from, '\n');
        let e = if e0 < from {
            from
        } else if e0 > s.len() {
            s.len() as int
        } else {
            e0
        };
        match ppid_of_line(s.subrange(from, e)) {
            Some(n) => Some(n),
            None => ppid_in_status(s, e + 1),
        }
    }
}

/// Read the parent pid out of the textual process-status table of a
/// process, as a Unix caller finds it beside the process id: the
/// number after the first `PPid:` line header. Absent when no line
/// carries one.
pub fn get_ppid(status: &str) -> (r: Option<u32>)
    ensures
        r == ppid_in_status(status@, 0),
{
    let n = status.unicode_len();
    let mut i: usize = 0;
    loop
        invariant
            i <= n,
            n == status@.len(),
            ppid_in_status(status@, 0) == ppid_in_status(status@, i as int),
        decreases n - i,
    {
        let e = find_char(status, i, '\n');
        let line = status.substring_char(i, e);
        let llen = e - i;
        if llen >= 5 {
            let head = line.substring_char(0, 5);
            if str_eq(head, "PPid:") {
                let rest = line.substring_char(5, llen);
                match parse_u32(trim_str(rest)) {
                    Some(v) => {
                        return Some(v);
                    },
                    None => {},
                }
            }
        }
        if e == n {
            proof {
                assert(ppid_of_line(status@.subrange(i as int, n as int)) is None);
                assert(ppid_in_status(status@, i as int) == ppid_in_status(
                    status@,
                    n as int + 1,
                ));
                assert(ppid_in_status(status@, n as int + 1) is None);
            }
            return None;
        }
        i = e + 1;
    }
}

} // verus!
