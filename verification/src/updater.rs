//! When the launcher looks for updates.

use vstd::prelude::*;

verus! {

/// The whole seconds of the time span written in `text`, such as
/// `1hour 12min 5s`, if `text` is a time span.
pub uninterp spec fn span_seconds(text: Seq<char>) -> Option<u64>;

/// A check interval of this many characters or more is not read.
pub const MAX_SPAN_LENGTH: usize = 20;

/// `humantime::parse_duration` reads a time span written as a
/// concatenation of numbers with unit suffixes, and `Duration::as_secs`
/// gives its whole seconds. The result depends on the text alone and is
/// given the name `span_seconds`. The parser panics where the seconds
/// stand at their maximum and the nanoseconds carry once more, which takes
/// a text of 20 characters at least, hence the bound.
#[verifier::external_body]
fn parse_span(text: &str) -> (r: Option<u64>)
    requires
        text@.len() < MAX_SPAN_LENGTH,
    ensures
        r == span_seconds(text@),
{
    humantime::parse_duration(text).ok().map(|span| span.as_secs())
}

/// Whether updates are looked for: the user did not switch the updater
/// off, and the launcher does not run in a Flatpak sandbox, which
/// `flatpak_id` names if it does.
pub fn is_enabled(enabled: Option<bool>, flatpak_id: Option<&str>) -> (r: bool)
    ensures
        r == (enabled == Some(true) && !(flatpak_id matches Some(id) && id@.len() > 0)),
{
    let is_flatpak = match flatpak_id {
        Some(id) => id.unicode_len() > 0,
        None => false,
    };
    match enabled {
        Some(on) => on && !is_flatpak,
        None => false,
    }
}

/// Whether a check is due at `now`, given the check interval in seconds,
/// if one is set and well-formed, and the time of the last check, all in
/// seconds: the interval is positive and has passed since the last check.
pub open spec fn is_due(interval: Option<u64>, last_check: Option<u64>, now: u64) -> bool {
    let every = match interval {
        Some(s) => s,
        None => 0,
    };
    let last = match last_check {
        Some(t) => t,
        None => 0,
    };
    every > 0 && last + every < now
}

/// Whether a check is due at `now`, given the check interval in seconds
/// and the time of the last check.
pub fn is_check_due(interval: Option<u64>, last_check: Option<u64>, now: u64) -> (r: bool)
    ensures
        r == is_due(interval, last_check, now),
{
    let every: u64 = match interval {
        Some(s) => s,
        None => 0,
    };
    let last: u64 = match last_check {
        Some(t) => t,
        None => 0,
    };
    every > 0 && (last as u128) + (every as u128) < now as u128
}

/// The seconds of the configured check interval `check_interval`, a time
/// span such as `1d`: none where no interval is configured, where it is
/// written in 20 characters or more, or where it is no time span.
pub open spec fn interval_seconds(check_interval: Option<Seq<char>>) -> Option<u64> {
    match check_interval {
        Some(text) => if text.len() < MAX_SPAN_LENGTH {
            span_seconds(text)
        } else {
            None
        },
        None => span_seconds(Seq::empty()),
    }
}

/// Whether a check for updates is due at `now`: the configured check
/// interval, a time span such as `1d`, is positive and has passed since
/// the last check. No interval, one that is no time span, or one written
/// in 20 characters or more, means never.
pub fn should_run(check_interval: Option<&str>, last_check: Option<u64>, now: u64) -> (r: bool)
    ensures
        r == is_due(
            interval_seconds(
                match check_interval {
                    Some(text) => Some(text@),
                    None => None,
                },
            ),
            last_check,
            now,
        ),
{
    let interval = match check_interval {
        Some(text) => {
            if text.unicode_len() < MAX_SPAN_LENGTH {
                parse_span(text)
            } else {
                None
            }
        },
        None => {
            proof {
                reveal_strlit("");
                assert(""@ =~= Seq::<char>::empty());
            }
            parse_span("")
        },
    };
    is_check_due(interval, last_check, now)
}

} // verus!
