//! The frecency score ranking collated history: a weighted blend of visit
//! frequency and recency. The weights are ranking policy; what the library
//! guarantees is the shape: non-negative, never increasing with age, never
//! decreasing with visit count, clamped to zero from below.
use vstd::prelude::*;

verus! {

/// Weight of one visit, in hundredths.
pub const VISIT_WEIGHT: i64 = 40;

/// Weight of one day of age, in hundredths.
pub const AGE_WEIGHT: i64 = 60;

/// Seconds in a day; ages count in whole days.
pub const SECONDS_PER_DAY: i64 = 86400;

/// The frecency score of an entry last visited at `last_visit` (unix
/// seconds) with `visits` recorded visits, computed at time `now`.
/// A timestamp in the future scores zero, as an invalid record.
pub open spec fn frecency_spec(now: int, last_visit: int, visits: int) -> int {
    if last_visit > now {
        0
    } else {
        let age_days = (now - last_visit) / (SECONDS_PER_DAY as int);
        let raw = visits * (VISIT_WEIGHT as int) - age_days * (AGE_WEIGHT as int);
        if raw < 0 {
            0
        } else if raw > u64::MAX {
            u64::MAX as int
        } else {
            raw
        }
    }
}

/// Computes the frecency score of a history record at time `now`.
pub fn calculate_frecency(now: i64, last_visit: i64, visits: i64) -> (r: u64)
    ensures
        r == frecency_spec(now as int, last_visit as int, visits as int),
{
    if last_visit > now {
        return 0;
    }
    let age_days: i128 = ((now as i128) - (last_visit as i128)) / (SECONDS_PER_DAY as i128);
    let raw: i128 = (visits as i128) * (VISIT_WEIGHT as i128) - age_days * (AGE_WEIGHT as i128);
    if raw < 0 {
        0
    } else if raw > u64::MAX as i128 {
        u64::MAX
    } else {
        raw as u64
    }
}

/// Frecency is non-negative on every input.
pub proof fn lemma_frecency_nonneg(now: int, last_visit: int, visits: int)
    ensures
        frecency_spec(now, last_visit, visits) >= 0,
{
}

/// Holding the visit count fixed, an older last visit never scores higher.
/// Timestamps in the future are excluded: they score zero as invalid records.
pub proof fn lemma_frecency_age_antitone(now: int, lv_old: int, lv_new: int, visits: int)
    requires
        lv_old <= lv_new <= now,
    ensures
        frecency_spec(now, lv_old, visits) <= frecency_spec(now, lv_new, visits),
{
    if lv_new <= now {
        vstd::arithmetic::div_mod::lemma_div_is_ordered(
            now - lv_new,
            now - lv_old,
            SECONDS_PER_DAY as int,
        );
        let a_new = (now - lv_new) / (SECONDS_PER_DAY as int);
        let a_old = (now - lv_old) / (SECONDS_PER_DAY as int);
        assert(a_old * (AGE_WEIGHT as int) >= a_new * (AGE_WEIGHT as int)) by (nonlinear_arith)
            requires
                a_old >= a_new,
        ;
    }
}

/// Holding the visit count fixed, a strictly older last visit — older by
/// enough that the age in whole days grows — scores strictly lower, as long
/// as the older entry still scores above the zero floor and the newer one
/// does not saturate the score range.
pub proof fn lemma_frecency_age_strict(now: int, lv_old: int, lv_new: int, visits: int)
    requires
        lv_old <= lv_new <= now,
        (now - lv_old) / (SECONDS_PER_DAY as int) > (now - lv_new) / (SECONDS_PER_DAY as int),
        frecency_spec(now, lv_old, visits) > 0,
        visits * (VISIT_WEIGHT as int) <= u64::MAX,
    ensures
        frecency_spec(now, lv_old, visits) < frecency_spec(now, lv_new, visits),
{
    let a_new = (now - lv_new) / (SECONDS_PER_DAY as int);
    let a_old = (now - lv_old) / (SECONDS_PER_DAY as int);
    vstd::arithmetic::div_mod::lemma_div_pos_is_pos(now - lv_new, SECONDS_PER_DAY as int);
    assert(a_old * (AGE_WEIGHT as int) > a_new * (AGE_WEIGHT as int)) by (nonlinear_arith)
        requires
            a_old > a_new,
    ;
}

/// Holding the timestamps fixed, more visits never score lower.
pub proof fn lemma_frecency_visits_monotone(now: int, last_visit: int, v1: int, v2: int)
    requires
        v1 <= v2,
    ensures
        frecency_spec(now, last_visit, v1) <= frecency_spec(now, last_visit, v2),
{
    if last_visit <= now {
        assert(v1 * (VISIT_WEIGHT as int) <= v2 * (VISIT_WEIGHT as int)) by (nonlinear_arith)
            requires
                v1 <= v2,
        ;
    }
}

} // verus!
