//! The idle gate: an announcement is skipped when the user has been
//! inactive for at least the configured threshold.

use vstd::prelude::*;

verus! {

/// Whether a tick is skipped: never with a zero threshold, and otherwise
/// exactly when the sampled idle time reached the threshold.  A failed
/// sample counts as "not idle" and never skips.
pub open spec fn skip_decision(threshold: u64, sample: Option<u64>) -> bool {
    threshold != 0 && match sample {
        Some(m) => m >= threshold,
        None => false,
    }
}

/// A zero threshold never skips, whatever the sample was.
pub proof fn lemma_zero_threshold_never_skips(sample: Option<u64>)
    ensures
        !skip_decision(0, sample),
{
}

/// The skip decision for one already-sampled idle duration.
pub fn should_skip_sampled(threshold: u64, sample: Option<u64>) -> (r: bool)
    ensures
        r == skip_decision(threshold, sample),
{
    if threshold == 0 {
        false
    } else {
        match sample {
            Some(m) => m >= threshold,
            None => false,
        }
    }
}

/// Relies on user_idle::UserIdle::get_time and UserIdle::as_minutes to read
/// how long the user has been inactive; the value depends on the machine's
/// input activity, so nothing is promised of it.  A sampling failure is
/// handed on as no sample.
#[verifier::external_body]
fn sample_idle_minutes() -> (r: Option<u64>) {
    match user_idle::UserIdle::get_time() {
        Ok(t) => Some(t.as_minutes()),
        Err(_) => None,
    }
}

/// Decides whether to skip this tick: a zero threshold never skips and
/// does not sample at all; otherwise the user's idle time is sampled and
/// the decision is the skip decision for whatever was sampled.
pub fn should_skip(threshold: u64) -> (r: bool)
    ensures
        exists|sample: Option<u64>| r == skip_decision(threshold, sample),
        threshold == 0 ==> r == false,
{
    if threshold == 0 {
        proof {
            assert(false == skip_decision(threshold, None));
        }
        false
    } else {
        let sample = sample_idle_minutes();
        let r = should_skip_sampled(threshold, sample);
        proof {
            assert(r == skip_decision(threshold, sample));
        }
        r
    }
}

} // verus!
