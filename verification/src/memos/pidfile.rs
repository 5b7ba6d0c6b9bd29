//! The PID record: one integer in a well-known file of the data directory,
//! written after a spawn and removed after a clean shutdown. A record found
//! at startup tells of an unclean shutdown.

use vstd::prelude::*;
use crate::decimal::{
    decimal, format_decimal, is_digit, lemma_decimal_round_trip, parse_unsigned, read_unsigned,
};
use crate::retry::{BestEffort, RetryPhase, RETRY_BUDGET_MS};
use crate::text::{chars_of, is_space, string_of, trim, trimmed};

verus! {

/// The name of the PID file inside the launcher's data directory.
pub const PID_FILE_NAME: &'static str = "memos.pid";

/// How long the liveness probe of a suspected orphan may take, in milliseconds.
pub const ORPHAN_PROBE_TIMEOUT_MS: u64 = 2000;

/// How long to wait after killing an orphan for its port to be released, in
/// milliseconds.
pub const ORPHAN_SETTLE_MS: u64 = 2000;

/// The PID that the file content `content` records, if it is an unsigned
/// decimal number that fits 32 bits, surrounded by white space at most.
pub open spec fn pid_of_text(content: Seq<char>) -> Option<u32> {
    match parse_unsigned(trim(content), u32::MAX as nat) {
        Some(n) => Some(n as u32),
        None => None,
    }
}

/// The content of the PID file that records `pid`.
pub fn pid_text(pid: u32) -> (r: String)
    ensures
        r@ == decimal(pid as nat),
{
    string_of(&format_decimal(pid as u64))
}

/// Reads the PID recorded in `content`.
pub fn parse_pid(content: &str) -> (r: Option<u32>)
    ensures
        r == pid_of_text(content@),
{
    let chars = trimmed(&chars_of(content));
    match read_unsigned(&chars, u32::MAX as u64) {
        Some(n) => Some(n as u32),
        None => None,
    }
}

/// The PID of the last server that was spawned and not cleanly shut down:
/// `is_file` says whether the PID file exists, `content` is its text if it
/// could be read. None after a graceful shutdown or on any failure.
pub fn get_last_pid(is_file: bool, content: Option<&str>) -> (r: Option<u32>)
    ensures
        r == match content {
            Some(text) if is_file => pid_of_text(text@),
            _ => None,
        },
{
    if !is_file {
        return None;
    }
    match content {
        Some(text) => parse_pid(text),
        None => None,
    }
}

/// The coordinator that writes the PID file with `pid`, and the text to write.
/// A new record overwrites the old one.
pub fn save_pid_file(pid: u32) -> (r: (BestEffort, String))
    ensures
        r.0.phase == RetryPhase::Waiting,
        r.0.budget_ms == RETRY_BUDGET_MS,
        r.0.last_error@ == Seq::<char>::empty(),
        r.1@ == decimal(pid as nat),
{
    (BestEffort::begin(), pid_text(pid))
}

/// The coordinator that removes the PID file.
pub fn remove_pid_file() -> (r: BestEffort)
    ensures
        r.phase == RetryPhase::Waiting,
        r.budget_ms == RETRY_BUDGET_MS,
        r.last_error@ == Seq::<char>::empty(),
{
    BestEffort::begin()
}

/// The coordinator that kills the process of a stale PID record.
pub fn kill_pid() -> (r: BestEffort)
    ensures
        r.phase == RetryPhase::Waiting,
        r.budget_ms == RETRY_BUDGET_MS,
        r.last_error@ == Seq::<char>::empty(),
{
    BestEffort::begin()
}

/// What to do about a server left over by an earlier run.
#[derive(Clone, Copy, Debug, PartialEq, Eq, Structural)]
pub enum OrphanAction {
    /// Nothing: no record, or nobody answered on the old port.
    Nothing,
    /// Kill the process `pid`, then wait `settle_ms` for its port.
    Kill { pid: u32, settle_ms: u64 },
}

/// Decides what to do about the PID record `last_pid`, given whether a server
/// `answered` the liveness probe on the previously used port. The probe is
/// only a trigger: the process that is killed is the recorded one.
pub fn find_and_kill_orphaned(last_pid: Option<u32>, answered: bool) -> (r: OrphanAction)
    ensures
        r == match last_pid {
            Some(pid) if answered => OrphanAction::Kill { pid, settle_ms: ORPHAN_SETTLE_MS },
            _ => OrphanAction::Nothing,
        },
{
    match last_pid {
        Some(pid) => if answered {
            OrphanAction::Kill { pid, settle_ms: ORPHAN_SETTLE_MS }
        } else {
            OrphanAction::Nothing
        },
        None => OrphanAction::Nothing,
    }
}

/// A text that begins and ends with a character that is no white space is
/// left alone by `trim`.
pub proof fn lemma_trim_is_identity(s: Seq<char>)
    requires
        s.len() > 0,
        !is_space(s.first()),
        !is_space(s.last()),
    ensures
        trim(s) == s,
{
}

/// Reading back what was written for `pid` gives `pid`, and with no file
/// there is no PID.
pub proof fn lemma_pid_round_trip(pid: u32)
    ensures
        pid_of_text(decimal(pid as nat)) == Some(pid),
{
    let s = decimal(pid as nat);
    lemma_decimal_round_trip(pid as nat);
    assert(is_digit(s.first()));
    assert(is_digit(s.last()));
    lemma_trim_is_identity(s);
}

} // verus!
