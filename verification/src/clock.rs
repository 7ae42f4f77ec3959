//! Timestamps. The remote reports milliseconds since the Unix epoch; the
//! descriptors hold whole seconds, and a value the calendar library cannot
//! represent falls back to the current time.

use vstd::prelude::*;

verus! {

/// Whether the calendar library can represent this many whole seconds
/// since the Unix epoch.
pub uninterp spec fn ts_representable(secs: int) -> bool;

/// Relies on chrono::DateTime::from_timestamp: `Some` exactly on the
/// representable range of seconds, which depends on nothing but the value.
#[verifier::external_body]
pub fn timestamp_in_range(secs: i64) -> (r: bool)
    ensures
        r == ts_representable(secs as int),
{
    chrono::DateTime::from_timestamp(secs, 0).is_some()
}

/// Milliseconds truncated to whole seconds, rounding toward zero.
pub open spec fn trunc_div_1000(ms: int) -> int {
    if ms >= 0 {
        ms / 1000
    } else {
        -((-ms) / 1000)
    }
}

/// The seconds a remote millisecond timestamp normalises to: divided by
/// 1000, or the current time when out of the representable range.
pub open spec fn spec_normalized_ts(ms: int, now: int) -> int {
    if ts_representable(trunc_div_1000(ms)) {
        trunc_div_1000(ms)
    } else {
        now
    }
}

/// Normalises a remote millisecond timestamp.
pub fn normalize_timestamp(ms: i64, now: i64) -> (r: i64)
    ensures
        r == spec_normalized_ts(ms as int, now as int),
{
    let secs = match ms.checked_div(1000) {
        Some(s) => s,
        None => 0,  // unreachable: the divisor is not zero and no quotient by 1000 overflows
    };
    proof {
        if ms >= 0 {
            vstd::arithmetic::div_mod::lemma_div_nonincreasing(ms as int, 1000);
            vstd::arithmetic::div_mod::lemma_div_pos_is_pos(ms as int, 1000);
        } else {
            vstd::arithmetic::div_mod::lemma_div_nonincreasing(-(ms as int), 1000);
            vstd::arithmetic::div_mod::lemma_div_pos_is_pos(-(ms as int), 1000);
        }
        assert(secs == trunc_div_1000(ms as int));
    }
    if timestamp_in_range(secs) {
        secs
    } else {
        now
    }
}

} // verus!
