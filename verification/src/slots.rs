//! The announcement schedule: an interval of 1..=60 minutes divides each of
//! the 24 hours into slots at minutes 0, interval, 2*interval, ... below 60,
//! and each scheduled tick resolves downward to the slot boundary most
//! recently passed.

use vstd::prelude::*;
use vstd::arithmetic::div_mod::{
    lemma_div_is_ordered, lemma_div_multiples_vanish, lemma_div_nonincreasing,
    lemma_fundamental_div_mod, lemma_fundamental_div_mod_converse, lemma_mod_multiples_basic,
    lemma_mod_pos_bound,
};
use vstd::arithmetic::mul::{
    lemma_mul_basics, lemma_mul_inequality, lemma_mul_is_commutative,
    lemma_mul_is_distributive_add_other_way, lemma_mul_strict_inequality,
};
use crate::errors::ConfigError;

verus! {

/// An announcement interval is valid when it lies in 1..=60 minutes.
pub open spec fn valid_interval(interval: int) -> bool {
    1 <= interval <= 60
}

/// How many slots one hour holds for a given interval: the on-grid minutes
/// 0, interval, ..., below 60.
pub open spec fn slots_per_hour(interval: int) -> int {
    59int / interval + 1
}

/// The hour of the i-th slot of the day, counting slots in (hour, minute)
/// order from (0, 0).
pub open spec fn slot_hour(interval: int, i: int) -> int {
    i / slots_per_hour(interval)
}

/// The minute of the i-th slot of the day.
pub open spec fn slot_minute(interval: int, i: int) -> int {
    (i % slots_per_hour(interval)) * interval
}

/// A tick minute resolves downward to the most recently passed slot
/// boundary.
pub open spec fn resolved_minute(minute: int, interval: int) -> int {
    minute / interval * interval
}

/// One announcement unit: an hour of the day and an on-grid minute.
#[derive(Clone, Copy, Debug, PartialEq, Eq, Structural)]
pub struct Slot {
    pub hour: u8,
    pub minute: u8,
}

impl Slot {
    /// A well-formed slot of the schedule for a given interval.
    pub open spec fn wf(self, interval: int) -> bool {
        self.hour < 24 && self.minute < 60 && self.minute as int % interval == 0
    }
}

/// Accepts exactly the intervals in 1..=60; anything else is a
/// configuration error carrying the rejected value.
pub fn validate_interval(interval: u8) -> (r: Result<(), ConfigError>)
    ensures
        r is Ok <==> valid_interval(interval as int),
        r is Err ==> r == Err::<(), ConfigError>(ConfigError::BadInterval { given: interval }),
{
    if interval == 0 || interval > 60 {
        Err(ConfigError::BadInterval { given: interval })
    } else {
        Ok(())
    }
}

/// The number of slots in one hour, as a machine integer.
pub fn slots_per_hour_count(interval: u8) -> (n: usize)
    requires
        valid_interval(interval as int),
    ensures
        n == slots_per_hour(interval as int),
{
    (59 / interval + 1) as usize
}

/// The on-grid minutes of one hour, in increasing order.
pub fn minutes_per_hour(interval: u8) -> (r: Vec<u8>)
    requires
        valid_interval(interval as int),
    ensures
        r@.len() == slots_per_hour(interval as int),
        forall|j: int| 0 <= j < r@.len() ==> r@[j] == j * interval as int,
        forall|j: int| 0 <= j < r@.len() ==> r@[j] < 60,
{
    let ghost ivl = interval as int;
    let s = slots_per_hour_count(interval);
    let mut r: Vec<u8> = Vec::new();
    let mut j: usize = 0;
    while j < s
        invariant
            valid_interval(ivl),
            ivl == interval as int,
            s == slots_per_hour(ivl),
            j <= s,
            r@.len() == j,
            forall|k: int| 0 <= k < r@.len() ==> r@[k] == k * ivl,
            forall|k: int| 0 <= k < r@.len() ==> r@[k] < 60,
        decreases s - j,
    {
        proof {
            // j <= 59 / ivl, so j * ivl <= (59 / ivl) * ivl <= 59.
            lemma_mul_inequality(j as int, 59int / ivl, ivl);
            lemma_fundamental_div_mod(59, ivl);
            lemma_mod_pos_bound(59, ivl);
            lemma_mul_is_commutative(59int / ivl, ivl);
            lemma_div_nonincreasing(59, ivl);
        }
        let m: u8 = (j as u8) * interval;
        r.push(m);
        j = j + 1;
    }
    r
}

/// The slots of the day are strictly ordered by (hour, minute): a later
/// index has a later hour, or the same hour and a strictly later minute.
pub proof fn lemma_slots_strictly_ordered(interval: int, i: int, j: int)
    requires
        valid_interval(interval),
        0 <= i < j < 24 * slots_per_hour(interval),
    ensures
        slot_hour(interval, i) < slot_hour(interval, j) || (slot_hour(interval, i) == slot_hour(
            interval,
            j,
        ) && slot_minute(interval, i) < slot_minute(interval, j)),
{
    let s = slots_per_hour(interval);
    lemma_div_is_ordered(i, j, s);
    if slot_hour(interval, i) == slot_hour(interval, j) {
        lemma_fundamental_div_mod(i, s);
        lemma_fundamental_div_mod(j, s);
        lemma_mul_strict_inequality(i % s, j % s, interval);
    }
}

/// The canonical slots of a whole day, ordered by hour then minute: slot
/// index i has hour `slot_hour` and minute `slot_minute`, and there are
/// 24 * (59 / interval + 1) of them.
pub fn canonical_slots(interval: u8) -> (r: Vec<Slot>)
    requires
        valid_interval(interval as int),
    ensures
        r@.len() == 24 * slots_per_hour(interval as int),
        forall|i: int|
            0 <= i < r@.len() ==> r@[i].hour == slot_hour(interval as int, i) && r@[i].minute
                == slot_minute(interval as int, i),
        forall|i: int| 0 <= i < r@.len() ==> r@[i].wf(interval as int),
{
    let ghost ivl = interval as int;
    let s = slots_per_hour_count(interval);
    let minutes = minutes_per_hour(interval);
    let mut r: Vec<Slot> = Vec::new();
    let mut hour: u8 = 0;
    proof {
        lemma_mul_basics(s as int);
    }
    while hour < 24
        invariant
            valid_interval(ivl),
            ivl == interval as int,
            s == slots_per_hour(ivl),
            minutes@.len() == s,
            forall|j: int| 0 <= j < minutes@.len() ==> minutes@[j] == j * ivl,
            forall|j: int| 0 <= j < minutes@.len() ==> minutes@[j] < 60,
            hour <= 24,
            r@.len() == hour as int * s as int,
            forall|i: int|
                0 <= i < r@.len() ==> r@[i].hour == slot_hour(ivl, i) && r@[i].minute
                    == slot_minute(ivl, i),
            forall|i: int| 0 <= i < r@.len() ==> r@[i].wf(ivl),
        decreases 24 - hour as int,
    {
        let mut j: usize = 0;
        while j < s
            invariant
                valid_interval(ivl),
                ivl == interval as int,
                s == slots_per_hour(ivl),
                minutes@.len() == s,
                forall|jj: int| 0 <= jj < minutes@.len() ==> minutes@[jj] == jj * ivl,
                forall|jj: int| 0 <= jj < minutes@.len() ==> minutes@[jj] < 60,
                hour < 24,
                j <= s,
                r@.len() == hour as int * s as int + j as int,
                forall|i: int|
                    0 <= i < r@.len() ==> r@[i].hour == slot_hour(ivl, i) && r@[i].minute
                        == slot_minute(ivl, i),
                forall|i: int| 0 <= i < r@.len() ==> r@[i].wf(ivl),
            decreases s - j as int,
        {
            let slot = Slot { hour, minute: minutes[j] };
            proof {
                lemma_fundamental_div_mod_converse(
                    hour as int * s as int + j as int,
                    s as int,
                    hour as int,
                    j as int,
                );
                lemma_mod_multiples_basic(j as int, ivl);
            }
            r.push(slot);
            j = j + 1;
        }
        proof {
            // (hour + 1) * s == hour * s + s, so the outer count advances by
            // one hour's worth of slots.
            lemma_mul_is_distributive_add_other_way(s as int, hour as int, 1);
            lemma_mul_basics(s as int);
        }
        hour = hour + 1;
    }
    r
}

/// Resolves a tick to the slot it falls in: the hour is kept, the minute is
/// rounded down to the nearest slot boundary.
pub fn resolve_slot(hour: u8, minute: u8, interval: u8) -> (r: Slot)
    requires
        hour < 24,
        minute < 60,
        valid_interval(interval as int),
    ensures
        r.hour == hour,
        r.minute == resolved_minute(minute as int, interval as int),
        r.wf(interval as int),
{
    proof {
        // (minute / interval) * interval <= minute, and the result is a
        // multiple of the interval.
        lemma_fundamental_div_mod(minute as int, interval as int);
        lemma_mod_pos_bound(minute as int, interval as int);
        lemma_mul_is_commutative(minute as int / interval as int, interval as int);
        lemma_mod_multiples_basic(minute as int / interval as int, interval as int);
    }
    let m = minute / interval * interval;
    Slot { hour, minute: m }
}

/// Resolution is idempotent: a minute already on the slot grid resolves to
/// itself.
pub proof fn lemma_resolve_idempotent(minute: int, interval: int)
    requires
        0 <= minute,
        valid_interval(interval),
    ensures
        resolved_minute(resolved_minute(minute, interval), interval) == resolved_minute(
            minute,
            interval,
        ),
{
    let q = minute / interval;
    lemma_mul_is_commutative(q, interval);
    lemma_div_multiples_vanish(q, interval);
}

/// Resolution is monotonic: within one hour, a later tick minute never
/// resolves to an earlier slot.
pub proof fn lemma_resolve_monotonic(m1: int, m2: int, interval: int)
    requires
        0 <= m1 <= m2,
        valid_interval(interval),
    ensures
        resolved_minute(m1, interval) <= resolved_minute(m2, interval),
{
    lemma_div_is_ordered(m1, m2, interval);
    lemma_mul_inequality(m1 / interval, m2 / interval, interval);
}

} // verus!
