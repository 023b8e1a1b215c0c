//! Pure helpers in the style of charting-language idioms: crossing detection
//! between two series and null coalescing.

use vstd::prelude::*;

verus! {

/// Series `a` moves from at or below series `b` to strictly above it.
pub open spec fn crossover_spec(curr_a: int, curr_b: int, prev_a: int, prev_b: int) -> bool {
    curr_a > curr_b && prev_a <= prev_b
}

/// Series `a` moves from at or above series `b` to strictly below it.
pub open spec fn crossunder_spec(curr_a: int, curr_b: int, prev_a: int, prev_b: int) -> bool {
    curr_a < curr_b && prev_a >= prev_b
}

/// True when `a` crosses above `b` between the previous and the current
/// sample; equality on the current sample is no cross.
pub fn crossover(curr_a: i64, curr_b: i64, prev_a: i64, prev_b: i64) -> (r: bool)
    ensures
        r == crossover_spec(curr_a as int, curr_b as int, prev_a as int, prev_b as int),
{
    curr_a > curr_b && prev_a <= prev_b
}

/// True when `a` crosses below `b` between the previous and the current
/// sample; equality on the current sample is no cross.
pub fn crossunder(curr_a: i64, curr_b: i64, prev_a: i64, prev_b: i64) -> (r: bool)
    ensures
        r == crossunder_spec(curr_a as int, curr_b as int, prev_a as int, prev_b as int),
{
    curr_a < curr_b && prev_a >= prev_b
}

/// A crossover and a crossunder never happen on the same inputs.
pub proof fn lemma_cross_exclusive(curr_a: int, curr_b: int, prev_a: int, prev_b: int)
    ensures
        !(crossover_spec(curr_a, curr_b, prev_a, prev_b) && crossunder_spec(
            curr_a,
            curr_b,
            prev_a,
            prev_b,
        )),
{
}

/// The value, or the replacement where there is no value (`None` stands for
/// a sample that is not a number).
pub open spec fn coalesce_spec(value: Option<i64>, replacement: i64) -> i64 {
    match value {
        Some(v) => v,
        None => replacement,
    }
}

/// Replaces a missing sample with `replacement`; a present sample is kept.
pub fn coalesce(value: Option<i64>, replacement: i64) -> (r: i64)
    ensures
        r == coalesce_spec(value, replacement),
        value is None ==> r == replacement,
        value is Some ==> r == value->0,
{
    match value {
        Some(v) => v,
        None => replacement,
    }
}

} // verus!
