//! Energy figures reported by the electrical energy measurement cluster:
//! device history in Wh, reported in mWh.

use vstd::prelude::*;

verus! {

/// Sum of a list of watt-hour readings.
pub open spec fn sum_of(s: Seq<i32>) -> int
    decreases s.len(),
{
    if s.len() == 0 {
        0
    } else {
        sum_of(s.drop_last()) + s.last() as int
    }
}

/// The total of an optional history list; an absent list counts as 0.
pub open spec fn total_wh(list: Option<Seq<i32>>) -> int {
    match list {
        Some(s) => sum_of(s),
        None => 0,
    }
}

/// `x` clamped to the range of `i64` (what the saturating operations give).
pub open spec fn clamp_i64(x: int) -> i64 {
    if x > i64::MAX {
        i64::MAX
    } else if x < i64::MIN {
        i64::MIN
    } else {
        x as i64
    }
}

proof fn lemma_sum_bounds(s: Seq<i32>)
    ensures
        s.len() * i32::MIN <= sum_of(s) <= s.len() * i32::MAX,
    decreases s.len(),
{
    if s.len() > 0 {
        lemma_sum_bounds(s.drop_last());
        assert((s.len() - 1) * i32::MIN + i32::MIN == s.len() * i32::MIN) by (nonlinear_arith);
        assert((s.len() - 1) * i32::MAX + i32::MAX == s.len() * i32::MAX) by (nonlinear_arith);
    }
}

/// The readings of an optional history list.
pub open spec fn list_view(list: Option<&[i32]>) -> Option<Seq<i32>> {
    match list {
        Some(l) => Some(l@),
        None => None,
    }
}

/// Sum of the watt-hour readings of a history list, 0 when the device
/// reported none.
pub fn sum_wh(list: Option<&[i32]>) -> (r: i64)
    requires
        list matches Some(l) ==> l@.len() <= 0x1_0000_0000,
    ensures
        r == total_wh(list_view(list)),
{
    match list {
        None => 0,
        Some(l) => {
            let mut total: i64 = 0;
            let mut i: usize = 0;
            while i < l.len()
                invariant
                    i <= l@.len(),
                    l@.len() <= 0x1_0000_0000,
                    total == sum_of(l@.take(i as int)),
                decreases l@.len() - i,
            {
                assert(l@.take(i + 1).drop_last() == l@.take(i as int));
                proof {
                    lemma_sum_bounds(l@.take(i + 1));
                    assert((i + 1) * i32::MIN >= 0x1_0000_0000 * i32::MIN) by (nonlinear_arith)
                        requires
                            i + 1 <= 0x1_0000_0000,
                    ;
                    assert((i + 1) * i32::MAX <= 0x1_0000_0000 * i32::MAX) by (nonlinear_arith)
                        requires
                            i + 1 <= 0x1_0000_0000,
                    ;
                }
                total = total + l[i] as i64;
                i = i + 1;
            }
            assert(l@.take(l@.len() as int) == l@);
            total
        },
    }
}

fn saturating_add_i64(a: i64, b: i64) -> (r: i64)
    ensures
        r == clamp_i64(a + b),
{
    match a.checked_add(b) {
        Some(v) => v,
        None => if b > 0 {
            i64::MAX
        } else {
            i64::MIN
        },
    }
}

fn saturating_mul_i64(a: i64, b: i64) -> (r: i64)
    ensures
        r == clamp_i64(a * b),
{
    match a.checked_mul(b) {
        Some(v) => v,
        None => {
            if (a > 0) == (b > 0) {
                assert(a * b > 0) by (nonlinear_arith)
                    requires
                        (a > 0) == (b > 0),
                        a * b > i64::MAX || a * b < i64::MIN,
                ;
                i64::MAX
            } else {
                assert(a * b < 0) by (nonlinear_arith)
                    requires
                        (a > 0) != (b > 0),
                        a * b > i64::MAX || a * b < i64::MIN,
                ;
                i64::MIN
            }
        },
    }
}

/// Lifetime imported energy in mWh: this year's and last year's watt-hour
/// totals added and scaled by 1000, each step saturating.
pub open spec fn cumulative_mwh(this_year: Option<Seq<i32>>, prev_year: Option<Seq<i32>>) -> i64 {
    clamp_i64(clamp_i64(total_wh(this_year) + total_wh(prev_year)) * 1000)
}

/// Today's imported energy in mWh: the first reading of the week list
/// (0 when there is none) scaled by 1000.
pub open spec fn periodic_mwh(week: Option<Seq<i32>>) -> i64 {
    let today: int = match week {
        Some(s) => if s.len() > 0 { s[0] as int } else { 0 },
        None => 0,
    };
    clamp_i64(today * 1000)
}

/// The cumulative energy imported, in mWh, from the yearly history lists.
pub fn cumulative_energy_mwh(this_year: Option<&[i32]>, prev_year: Option<&[i32]>) -> (r: i64)
    requires
        this_year matches Some(l) ==> l@.len() <= 0x1_0000_0000,
        prev_year matches Some(l) ==> l@.len() <= 0x1_0000_0000,
    ensures
        r == cumulative_mwh(list_view(this_year), list_view(prev_year)),
{
    let this_wh = sum_wh(this_year);
    let prev_wh = sum_wh(prev_year);
    saturating_mul_i64(saturating_add_i64(this_wh, prev_wh), 1000)
}

/// The energy imported today, in mWh, from the weekly history list.
pub fn periodic_energy_mwh(week: Option<&[i32]>) -> (r: i64)
    ensures
        r == periodic_mwh(list_view(week)),
{
    let today: i64 = match week {
        Some(l) => if l.len() > 0 {
            l[0] as i64
        } else {
            0
        },
        None => 0,
    };
    saturating_mul_i64(today, 1000)
}

/// Whenever the lifetime total fits once scaled, the cumulative energy is
/// exactly this year's plus last year's watt-hours, times 1000.
pub proof fn lemma_cumulative_is_thousandfold(this_year: Option<Seq<i32>>, prev_year: Option<Seq<i32>>)
    requires
        i64::MIN <= (total_wh(this_year) + total_wh(prev_year)) * 1000 <= i64::MAX,
    ensures
        cumulative_mwh(this_year, prev_year) == (total_wh(this_year) + total_wh(prev_year)) * 1000,
{
    let t = total_wh(this_year) + total_wh(prev_year);
    assert(i64::MIN <= t <= i64::MAX) by (nonlinear_arith)
        requires
            i64::MIN <= t * 1000 <= i64::MAX,
    ;
}

/// Today's energy is the first reading of the week, in Wh, times 1000 (it
/// never saturates).
pub proof fn lemma_periodic_is_thousandfold(week: Seq<i32>)
    requires
        week.len() > 0,
    ensures
        periodic_mwh(Some(week)) == week[0] * 1000,
{
}

} // verus!
