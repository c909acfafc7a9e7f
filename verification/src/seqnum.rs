//! Wrap-safe arithmetic on 32-bit TCP sequence numbers.
//!
//! Sequence numbers live on a circle of circumference 2^32. The single
//! predicate [`between`] ("is `x` met when walking clockwise from `start`
//! exclusive to `end` exclusive?") drives both the receive-window acceptance
//! test and the acknowledgement acceptance test of the state machine.

use vstd::prelude::*;

verus! {

/// `a + b` on the 32-bit circle.
pub open spec fn wrap_add(a: u32, b: u32) -> u32 {
    ((a + b) % 0x1_0000_0000) as u32
}

/// `a - b` on the 32-bit circle.
pub open spec fn wrap_sub(a: u32, b: u32) -> u32 {
    ((a - b) % 0x1_0000_0000) as u32
}

/// True iff `x` lies strictly inside the clockwise arc from `start` to `end`
/// on the 32-bit circle:
/// - `start == x`: false;
/// - `start < x` numerically: true iff `end` is not in the closed interval
///   `[start, x]` (so `x` lies on the path from `start` to `end`);
/// - `start > x` numerically: true iff `end` lies strictly between `x` and
///   `start`.
pub open spec fn between(start: u32, x: u32, end: u32) -> bool {
    if start < x {
        !(start <= end <= x)
    } else if start > x {
        x < end < start
    } else {
        false
    }
}

/// Exec form of [`wrap_add`].
pub fn wrapping_add32(a: u32, b: u32) -> (r: u32)
    ensures
        r == wrap_add(a, b),
{
    proof {
        if a + b <= u32::MAX {
            vstd::arithmetic::div_mod::lemma_small_mod((a + b) as nat, 0x1_0000_0000);
        } else {
            vstd::arithmetic::div_mod::lemma_mod_sub_multiples_vanish((a + b) as int, 0x1_0000_0000);
            vstd::arithmetic::div_mod::lemma_small_mod((a + b - 0x1_0000_0000) as nat, 0x1_0000_0000);
        }
    }
    a.wrapping_add(b)
}

/// Exec form of [`wrap_sub`].
pub fn wrapping_sub32(a: u32, b: u32) -> (r: u32)
    ensures
        r == wrap_sub(a, b),
{
    proof {
        if a >= b {
            vstd::arithmetic::div_mod::lemma_small_mod((a - b) as nat, 0x1_0000_0000);
        } else {
            vstd::arithmetic::div_mod::lemma_mod_multiples_vanish(1, a - b, 0x1_0000_0000);
            vstd::arithmetic::div_mod::lemma_small_mod((a - b + 0x1_0000_0000) as nat, 0x1_0000_0000);
        }
    }
    a.wrapping_sub(b)
}

/// Exec form of [`between`].
pub fn is_between_wrapped(start: u32, x: u32, end: u32) -> (r: bool)
    ensures
        r == between(start, x, end),
{
    if start < x {
        !(start <= end && end <= x)
    } else if start > x {
        x < end && end < start
    } else {
        false
    }
}

/// The predicate is translation-invariant: shifting all three points by the
/// same amount around the circle does not change it.
pub proof fn lemma_between_translation(a: u32, b: u32, c: u32, k: u32)
    ensures
        between(a, b, c) == between(wrap_add(a, k), wrap_add(b, k), wrap_add(c, k)),
{
    assert(between(a, b, c) == between(
        ((a + k) % 0x1_0000_0000) as u32,
        ((b + k) % 0x1_0000_0000) as u32,
        ((c + k) % 0x1_0000_0000) as u32,
    )) by (bit_vector);
}

/// An acknowledgment accepted by `between(una, ackn, nxt + 1)` lies between
/// the two send-space marks: as long as `una` trails `nxt` by at most half
/// the circle, the new `una` (namely `ackn`) still does.
pub proof fn lemma_ack_stays_in_send_space(una: u32, nxt: u32, ackn: u32)
    requires
        between(una, ackn, wrap_add(nxt, 1)),
        wrap_sub(nxt, una) <= 0x8000_0000,
    ensures
        wrap_sub(nxt, ackn) <= 0x8000_0000,
        wrap_sub(wrap_add(nxt, 1), ackn) <= 0x8000_0000,
{
    assert((between(una, ackn, wrap_add(nxt, 1)) && wrap_sub(nxt, una) <= 0x8000_0000) ==> (
    wrap_sub(nxt, ackn) <= 0x8000_0000 && wrap_sub(wrap_add(nxt, 1), ackn) <= 0x8000_0000))
        by (bit_vector);
}

/// The arc excludes its starting point: `between(a, b, c)` is false whenever
/// `a == b`.
pub proof fn lemma_between_excludes_start(a: u32, c: u32)
    ensures
        !between(a, a, c),
{
}

} // verus!
