//! Choice of the preview seek point.
//!
//! The preview shows one frame from a pseudo-random spot of the source,
//! drawn uniformly over its duration, pulled back by a one-second safety
//! margin so that the extracted clip never starts at the very end.  The
//! margin arithmetic is deterministic and kept apart from the random draw,
//! so it can be pinned in tests.

use vstd::prelude::*;

verus! {

/// Safety margin before the end of the source, in milliseconds.
pub const SEEK_MARGIN_MS: u64 = 1000;

/// Relies on fastrand::u64 over the range `0..n`: a value below `n`;
/// the call panics only on an empty range, which `n > 0` rules out.
#[verifier::external_body]
fn random_below(n: u64) -> (r: u64)
    requires
        n > 0,
    ensures
        r < n,
{
    fastrand::u64(0..n)
}

/// A random point pulled back by the safety margin, clamped at the start.
pub open spec fn seek_margin_applied(point_ms: u64) -> u64 {
    if point_ms >= SEEK_MARGIN_MS {
        (point_ms - SEEK_MARGIN_MS) as u64
    } else {
        0
    }
}

/// Applies the safety margin to an already chosen random point.
pub fn seek_with_margin(point_ms: u64) -> (r: u64)
    ensures
        r == seek_margin_applied(point_ms),
{
    if point_ms >= SEEK_MARGIN_MS {
        point_ms - SEEK_MARGIN_MS
    } else {
        0
    }
}

/// Draws the seek point for a source of the given duration: uniform over
/// `[0, duration_ms)`, then pulled back by the margin.  Whatever the draw,
/// the result lies inside the source and leaves the margin before its end
/// unless it is the very start.
pub fn pick_seek_point(duration_ms: u64) -> (r: u64)
    requires
        duration_ms > 0,
    ensures
        r < duration_ms,
        r == 0 || r + SEEK_MARGIN_MS < duration_ms,
{
    let point = random_below(duration_ms);
    seek_with_margin(point)
}

} // verus!
