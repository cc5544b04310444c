//! Proportional coordinate scaling, for backends whose devices sample in a
//! fixed native space.
//!
//! A backend is free to define its own native-to-target transform, as long
//! as it is monotonic per axis and bounded by the target dimension.  The
//! proportional transform here satisfies both, which the two lemmas state;
//! the virtual backend uses it for its absolute-position events.

use vstd::prelude::*;

use vstd::arithmetic::div_mod::lemma_div_is_ordered;
use vstd::arithmetic::div_mod::lemma_multiply_divide_lt;
use vstd::arithmetic::mul::lemma_mul_inequality;
use vstd::arithmetic::mul::lemma_mul_strict_inequality;
use vstd::arithmetic::mul::lemma_mul_upper_bound;

verus! {

/// The proportional image of `value` when a source space of `source_size`
/// cells is mapped onto a target space of `target` cells.
pub open spec fn scaled(value: u32, source_size: u64, target: u32) -> int {
    (value as int) * (target as int) / (source_size as int)
}

/// The proportional transform is bounded by the target dimension: a sample
/// inside the source space lands inside the target space.
pub proof fn lemma_scaled_bounded(value: u32, source_size: u64, target: u32)
    requires
        (value as u64) < source_size,
        target > 0,
    ensures
        0 <= scaled(value, source_size, target) < target,
{
    let v = value as int;
    let s = source_size as int;
    let t = target as int;
    lemma_mul_strict_inequality(v, s, t);
    lemma_multiply_divide_lt(v * t, s, t);
    lemma_div_is_ordered(0, v * t, s);
}

/// The proportional transform is monotonic in the native sample.
pub proof fn lemma_scaled_monotonic(a: u32, b: u32, source_size: u64, target: u32)
    requires
        a <= b,
        source_size > 0,
    ensures
        scaled(a, source_size, target) <= scaled(b, source_size, target),
{
    lemma_mul_inequality(a as int, b as int, target as int);
    lemma_div_is_ordered((a as int) * (target as int), (b as int) * (target as int),
        source_size as int);
}

/// Map `value`, a sample from a source space of `source_size` cells, onto
/// the proportional cell of a target space of `target` cells.
pub fn scale_to_space(value: u32, source_size: u64, target: u32) -> (r: u32)
    requires
        (value as u64) < source_size,
        target > 0,
    ensures
        r == scaled(value, source_size, target),
        r < target,
{
    proof {
        lemma_scaled_bounded(value, source_size, target);
        lemma_mul_upper_bound(value as int, 0xffff_ffff, target as int, 0xffff_ffff);
    }
    let wide: u64 = (value as u64) * (target as u64);
    let q: u64 = wide / source_size;
    q as u32
}

} // verus!
