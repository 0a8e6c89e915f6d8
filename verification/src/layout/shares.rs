//! How leftover space is divided among children that fill.
//!
//! A child with weight `w` among weights that sum to `W` is owed
//! `remaining * w / W` units. Lengths are whole, so each child gets the
//! difference of two rounded-down running totals: the shares add up to
//! exactly what was there to divide, each is the owed amount rounded down
//! or up, and a later child gets the extra unit before an earlier one of
//! the same weight.
use vstd::prelude::*;

verus! {

/// The sum of the first `k` weights.
pub open spec fn weight_sum(weights: Seq<u16>, k: int) -> int
    decreases k,
{
    if k <= 0 {
        0
    } else {
        weight_sum(weights, k - 1) + weights[k - 1]
    }
}

/// The sum of all weights.
pub open spec fn total_weight(weights: Seq<u16>) -> int {
    weight_sum(weights, weights.len() as int)
}

/// What the first `k` children get together.
pub open spec fn running_share(remaining: int, weights: Seq<u16>, k: int) -> int {
    if total_weight(weights) == 0 {
        0
    } else {
        (remaining * weight_sum(weights, k)) / total_weight(weights)
    }
}

/// What the child at `index` gets.
pub open spec fn share(remaining: int, weights: Seq<u16>, index: int) -> int {
    running_share(remaining, weights, index + 1) - running_share(remaining, weights, index)
}

/// The sum of the shares of the first `k` children.
pub open spec fn share_sum(remaining: int, weights: Seq<u16>, k: int) -> int
    decreases k,
{
    if k <= 0 {
        0
    } else {
        share_sum(remaining, weights, k - 1) + share(remaining, weights, k - 1)
    }
}

/// Running sums of weights grow, and stay within 65535 per weight.
pub proof fn lemma_weight_sum_bounds(weights: Seq<u16>, j: int, k: int)
    requires
        0 <= j <= k <= weights.len(),
    ensures
        0 <= weight_sum(weights, j) <= weight_sum(weights, k) <= 65535 * k,
    decreases k,
{
    if k > 0 {
        if j < k {
            lemma_weight_sum_bounds(weights, j, k - 1);
        } else {
            lemma_weight_sum_bounds(weights, j - 1, k - 1);
        }
    }
}

/// The running share of no child is nothing, and that of all children is
/// everything, if anyone fills.
pub proof fn lemma_running_share_ends(remaining: int, weights: Seq<u16>)
    requires
        0 <= remaining,
    ensures
        running_share(remaining, weights, 0) == 0,
        total_weight(weights) > 0 ==> running_share(remaining, weights, weights.len() as int)
            == remaining,
{
    let total = total_weight(weights);
    lemma_weight_sum_bounds(weights, 0, weights.len() as int);
    if total > 0 {
        let none = weight_sum(weights, 0);
        assert((remaining * none) / total == 0) by (nonlinear_arith)
            requires
                total > 0,
                none == 0,
        ;
        assert((remaining * total) / total == remaining) by (nonlinear_arith)
            requires
                total > 0,
        ;
    }
}

/// Running shares grow with the number of children, from nothing up to
/// what there is to divide.
pub proof fn lemma_running_share_monotonic(remaining: int, weights: Seq<u16>, j: int, k: int)
    requires
        0 <= remaining,
        0 <= j <= k <= weights.len(),
    ensures
        0 <= running_share(remaining, weights, j) <= running_share(remaining, weights, k)
            <= remaining,
{
    let total = total_weight(weights);
    lemma_weight_sum_bounds(weights, j, k);
    lemma_weight_sum_bounds(weights, k, weights.len() as int);
    if total > 0 {
        let a = weight_sum(weights, j);
        let b = weight_sum(weights, k);
        assert(0 <= (remaining * a) / total <= (remaining * b) / total <= remaining)
            by (nonlinear_arith)
            requires
                0 <= remaining,
                0 <= a <= b <= total,
                total > 0,
        ;
    }
}

/// No share is negative, and none is more than what there is to divide.
pub proof fn lemma_share_bounds(remaining: int, weights: Seq<u16>, index: int)
    requires
        0 <= remaining,
        0 <= index < weights.len(),
    ensures
        0 <= share(remaining, weights, index) <= remaining,
{
    lemma_running_share_monotonic(remaining, weights, index, index + 1);
    lemma_running_share_monotonic(remaining, weights, 0, index);
}

/// The shares of the first `k` children add up to their running share.
pub proof fn lemma_share_sum_telescopes(remaining: int, weights: Seq<u16>, k: int)
    requires
        0 <= remaining,
        0 <= k <= weights.len(),
    ensures
        share_sum(remaining, weights, k) == running_share(remaining, weights, k),
    decreases k,
{
    if k > 0 {
        lemma_share_sum_telescopes(remaining, weights, k - 1);
    } else {
        lemma_running_share_ends(remaining, weights);
    }
}

/// Nothing is lost and nothing invented: where a child fills, the shares
/// add up to exactly what there was to divide.
pub proof fn lemma_shares_add_up(remaining: int, weights: Seq<u16>)
    requires
        0 <= remaining,
        total_weight(weights) > 0,
    ensures
        share_sum(remaining, weights, weights.len() as int) == remaining,
{
    lemma_share_sum_telescopes(remaining, weights, weights.len() as int);
    lemma_running_share_ends(remaining, weights);
}

/// Each share is the owed amount, `remaining * weight / total`, rounded
/// down or up; a child of weight zero gets nothing.
pub proof fn lemma_share_is_proportional(remaining: int, weights: Seq<u16>, index: int)
    requires
        0 <= remaining,
        0 <= index < weights.len(),
        total_weight(weights) > 0,
    ensures
        (remaining * weights[index]) / total_weight(weights) <= share(remaining, weights, index)
            <= (remaining * weights[index]) / total_weight(weights) + 1,
        weights[index] == 0 ==> share(remaining, weights, index) == 0,
{
    let total = total_weight(weights);
    let a = weight_sum(weights, index);
    let w = weights[index] as int;
    lemma_weight_sum_bounds(weights, index, index + 1);
    assert(weight_sum(weights, index + 1) == a + w);
    assert(remaining * (a + w) == remaining * a + remaining * w) by (nonlinear_arith);
    let x = remaining * a;
    let y = remaining * w;
    assert(0 <= x && 0 <= y) by (nonlinear_arith)
        requires
            x == remaining * a,
            y == remaining * w,
            0 <= remaining,
            0 <= a,
            0 <= w,
    ;
    assert(y / total <= (x + y) / total - x / total <= y / total + 1) by (nonlinear_arith)
        requires
            0 <= x,
            0 <= y,
            total > 0,
    ;
}

/// The share of one child, from the weights before it, its own weight and
/// the total.
pub fn portion(remaining: u32, before: u128, weight: u16, total: u128) -> (part: u32)
    requires
        0 < total,
        before + weight <= total,
        total <= 65535 * 0x1_0000_0000_0000_0000,
    ensures
        part == (remaining * (before + weight)) / (total as int) - (remaining * before) / (
        total as int),
{
    let upto: u128 = before + weight as u128;
    assert(remaining * upto <= 0xffff_ffff * (65535 * 0x1_0000_0000_0000_0000)) by (nonlinear_arith)
        requires
            remaining <= 0xffff_ffff,
            upto <= 65535 * 0x1_0000_0000_0000_0000,
    ;
    assert(remaining * before <= remaining * upto) by (nonlinear_arith)
        requires
            before <= upto,
    ;
    let high: u128 = (remaining as u128 * upto) / total;
    let low: u128 = (remaining as u128 * before) / total;
    assert(low <= high <= remaining) by (nonlinear_arith)
        requires
            low == (remaining * before) / (total as int),
            high == (remaining * upto) / (total as int),
            0 <= before <= upto <= total,
            0 < total,
            0 <= remaining,
    ;
    (high - low) as u32
}

} // verus!
