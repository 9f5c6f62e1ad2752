//! Random draws: fresh identifiers and the numbers that drive simulated work.

use rand::Rng;
use vstd::prelude::*;

verus! {

/// Relies on `rand::Rng::gen_range` on the thread-local random source
/// (`rand::thread_rng`): a value in `0..bound`. It panics on an empty range,
/// so `bound` must be positive.
#[verifier::external_body]
pub(crate) fn draw_below(bound: u64) -> (r: u64)
    requires
        bound > 0,
    ensures
        r < bound,
{
    rand::thread_rng().gen_range(0..bound)
}

/// A random non-zero span identifier.
pub fn fresh_span_id() -> (r: u64)
    ensures
        r != 0,
{
    draw_below(u64::MAX) + 1
}

/// A random non-zero trace identifier.
pub fn fresh_trace_id() -> (r: u128)
    ensures
        r != 0,
{
    let hi = draw_below(u64::MAX) as u128;
    let lo = fresh_span_id() as u128;
    assert(hi * 0x1_0000_0000_0000_0000 + lo <= u128::MAX) by (nonlinear_arith)
        requires
            hi < 0xFFFF_FFFF_FFFF_FFFF,
            lo <= 0xFFFF_FFFF_FFFF_FFFF,
    ;
    hi * 0x1_0000_0000_0000_0000 + lo
}

} // verus!
