//! One scheduler tick: resolve the current time to its slot, consult the
//! idle gate, and name the asset to play.

use vstd::prelude::*;
use crate::digits::dec_chars;
use crate::filenames::{voice_path, voice_path_chars};
use crate::idle::{should_skip, should_skip_sampled, skip_decision};
use crate::slots::{resolve_slot, resolved_minute, valid_interval, Slot};

verus! {

/// What one tick does: play the asset at the given path synchronously, or
/// skip this announcement.
#[derive(Clone, Debug, PartialEq, Eq)]
pub enum TickAction {
    Play { path: String },
    Skip,
}

/// Decides one tick from already-sampled values: the tick resolves to the
/// most recently passed slot boundary of the current hour, and plays that
/// slot's canonical asset path unless the idle gate says to skip.
pub fn decide_tick(hour: u8, minute: u8, interval: u8, threshold: u64, sample: Option<u64>) -> (r:
    TickAction)
    requires
        hour < 24,
        minute < 60,
        valid_interval(interval as int),
    ensures
        skip_decision(threshold, sample) ==> r is Skip,
        !skip_decision(threshold, sample) ==> (r matches TickAction::Play { path } && path@
            == voice_path_chars(hour as int, resolved_minute(minute as int, interval as int))),
{
    let slot = resolve_slot(hour, minute, interval);
    if should_skip_sampled(threshold, sample) {
        TickAction::Skip
    } else {
        TickAction::Play { path: voice_path(slot.hour, slot.minute) }
    }
}

/// Relies on chrono::Local::now and the chrono::Timelike accessors `hour`
/// and `minute`, documented to return the hour number 0..=23 and the minute
/// number 0..=59 of the local time.
#[verifier::external_body]
fn local_hour_minute() -> (r: (u8, u8))
    ensures
        r.0 < 24,
        r.1 < 60,
{
    let now = chrono::Local::now();
    (chrono::Timelike::hour(&now) as u8, chrono::Timelike::minute(&now) as u8)
}

/// Reads the local clock, samples the idle gate, and decides the current
/// tick.  The slot comes from rounding the clock minute down to the grid;
/// the action plays that slot's canonical asset path unless the idle
/// decision skipped it, and a zero idle threshold never skips.
pub fn current_tick(interval: u8, threshold: u64) -> (r: (Slot, TickAction))
    requires
        valid_interval(interval as int),
    ensures
        r.0.wf(interval as int),
        threshold == 0 ==> !(r.1 is Skip),
        r.1 matches TickAction::Play { path } ==> path@ == voice_path_chars(
            r.0.hour as int,
            r.0.minute as int,
        ),
{
    let (h, m) = local_hour_minute();
    let slot = resolve_slot(h, m, interval);
    if should_skip(threshold) {
        (slot, TickAction::Skip)
    } else {
        let path = voice_path(slot.hour, slot.minute);
        (slot, TickAction::Play { path })
    }
}

/// The six-field cron line that fires at second 0 of every interval-th
/// minute of every hour.
pub open spec fn cron_line_chars(interval: int) -> Seq<char> {
    seq!['0', ' ', '*', '/'] + dec_chars(interval) + seq![' ', '*', ' ', '*', ' ', '*', ' ', '*']
}

/// Builds the cron line the scheduler is registered under.
pub fn cron_line(interval: u8) -> (r: String)
    requires
        valid_interval(interval as int),
    ensures
        r@ == cron_line_chars(interval as int),
{
    proof {
        reveal_strlit("0 */");
        reveal_strlit(" * * * *");
    }
    let mut s = String::from_str("0 */");
    let n = crate::digits::decimal_string(interval as u32);
    s.append(n.as_str());
    s.append(" * * * *");
    proof {
        assert(s@ =~= cron_line_chars(interval as int));
    }
    s
}

} // verus!
