//! Fixed-point geometry: the scaled vector type and the single, isolated
//! conversion step from font design units to device units.
//!
//! A font coordinate is scaled by `size / units_per_em`. Device coordinates
//! are kept as integers (a fixed-point interpretation is the caller's
//! choice); the quotient is truncated toward zero.

use vstd::prelude::*;
use vstd::arithmetic::div_mod::{
    lemma_div_multiples_vanish, lemma_div_nonincreasing, lemma_div_of0, lemma_div_pos_is_pos,
};
use vstd::arithmetic::mul::{lemma_mul_is_commutative, lemma_mul_upper_bound};

verus! {

/// A two-dimensional vector in scaled device units.
#[derive(Clone, Copy, Debug, PartialEq, Eq, Structural)]
pub struct Vec2 {
    pub x: i128,
    pub y: i128,
}

/// The largest magnitude one scaled component can reach: a 32-bit raw
/// coordinate times a 32-bit size, divided by a units-per-em of at least one.
pub open spec fn scale_limit() -> int {
    0x7FFF_FFFF_8000_0000
}

/// What scaling means: multiply a raw design-unit coordinate by
/// `size / upem`, truncating the quotient toward zero.
pub open spec fn scale_val(raw: int, size: int, upem: int) -> int {
    if raw >= 0 {
        (raw * size) / upem
    } else {
        -((-raw * size) / upem)
    }
}

/// A vector whose components both lie within `scale_limit`.
pub open spec fn vec2_in_range(v: Vec2) -> bool {
    &&& -scale_limit() <= v.x <= scale_limit()
    &&& -scale_limit() <= v.y <= scale_limit()
}

/// Scale one raw coordinate from design units to device units.
pub fn scale_component(raw: i32, size: u32, upem: u32) -> (r: i128)
    requires
        upem >= 1,
    ensures
        r == scale_val(raw as int, size as int, upem as int),
        -scale_limit() <= r <= scale_limit(),
{
    let mag: u64 = if raw >= 0 {
        raw as u64
    } else {
        (-(raw as i64)) as u64
    };
    proof {
        lemma_mul_upper_bound(mag as int, 0x8000_0000, size as int, 0xFFFF_FFFF);
    }
    let prod: u64 = mag * (size as u64);
    let q: u64 = prod / (upem as u64);
    proof {
        lemma_div_nonincreasing(prod as int, upem as int);
        lemma_div_pos_is_pos(prod as int, upem as int);
    }
    if raw >= 0 {
        q as i128
    } else {
        -(q as i128)
    }
}

/// Scale correctness: a raw coordinate of one full em scales to exactly the
/// requested size, and a zero coordinate scales to zero.
pub proof fn lemma_scale_full_em(size: u32, upem: u32)
    requires
        upem >= 1,
    ensures
        scale_val(upem as int, size as int, upem as int) == size as int,
        scale_val(0, size as int, upem as int) == 0,
{
    lemma_mul_is_commutative(upem as int, size as int);
    lemma_div_multiples_vanish(size as int, upem as int);
    lemma_div_of0(upem as int);
    assert(0 * (size as int) == 0);
}

} // verus!
