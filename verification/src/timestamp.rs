//! The mapping from frame sequence numbers to per-stream presentation
//! time, and rescaling of timestamps between time bases.
//!
//! A frame's presentation time is its sequence number: for video that is
//! a count of ticks of one frame interval (time base `1/fps`), for audio
//! it is read directly in the audio stream's time base.  Before a packet
//! is written to the container its timestamp is rescaled from the
//! encoder's time base to the stream's declared one, rounding to the
//! nearest tick with ties away from zero.

use vstd::prelude::*;
use vstd::arithmetic::div_mod::{
    lemma_fundamental_div_mod,
    lemma_div_by_multiple,
    lemma_mod_multiples_basic,
};

verus! {

/// A rational tick duration: a timestamp counts ticks of `num / den`
/// seconds each.
#[derive(Debug, Clone, Copy, PartialEq, Eq, Structural)]
pub struct TimeBase {
    pub num: u32,
    pub den: u32,
}

impl TimeBase {
    /// Degenerate time bases are excluded everywhere.
    pub open spec fn wf(self) -> bool {
        self.num >= 1 && self.den >= 1
    }

}

/// The video stream's time base: one tick per frame interval.
pub fn video_time_base(fps: u32) -> (tb: TimeBase)
    requires
        fps >= 1,
    ensures
        tb == (TimeBase { num: 1, den: fps }),
        tb.wf(),
{
    TimeBase { num: 1, den: fps }
}

/// The audio stream's time base: one tick per sample at the given rate.
pub fn audio_time_base(sample_rate: u32) -> (tb: TimeBase)
    requires
        sample_rate >= 1,
    ensures
        tb == (TimeBase { num: 1, den: sample_rate }),
        tb.wf(),
{
    TimeBase { num: 1, den: sample_rate }
}

/// A frame's presentation time in its stream's own time base: the
/// sequence number itself.
pub fn frame_pts(frame_number: u64) -> (pts: i64)
    requires
        frame_number <= i64::MAX as u64,
    ensures
        pts == frame_number as i64,
        pts >= 0,
{
    frame_number as i64
}

pub open spec fn spec_abs(n: int) -> int {
    if n >= 0 {
        n
    } else {
        -n
    }
}

/// `n / d` for `n, d >= 0`, rounded to the nearest integer, rounding up
/// on a tie.
pub open spec fn spec_round_div_mag(n: int, d: int) -> int {
    if 2 * (n % d) >= d {
        n / d + 1
    } else {
        n / d
    }
}

/// `n / d` for `d > 0`, rounded to the nearest integer, ties away from
/// zero.
pub open spec fn spec_round_div(n: int, d: int) -> int {
    if n >= 0 {
        spec_round_div_mag(n, d)
    } else {
        -spec_round_div_mag(-n, d)
    }
}

/// A timestamp of `pts` ticks of `from` expressed in ticks of `to`:
/// `pts * (from.num * to.den) / (from.den * to.num)`, rounded to the
/// nearest tick with ties away from zero.
pub open spec fn spec_rescale(pts: int, from: TimeBase, to: TimeBase) -> int {
    spec_round_div(pts * from.num * to.den, from.den * to.num)
}

/// The rounded quotient is the integer nearest `n / d`: the remaining
/// error is at most half a tick.
pub proof fn lemma_round_div_nearest(n: int, d: int)
    requires
        d >= 1,
    ensures
        2 * spec_abs(n - spec_round_div(n, d) * d) <= d,
{
    if n >= 0 {
        lemma_round_div_mag_nearest(n, d);
    } else {
        lemma_round_div_mag_nearest(-n, d);
        let rm = spec_round_div_mag(-n, d);
        assert((-rm) * d == -(rm * d)) by (nonlinear_arith);
        assert(spec_abs(n - (-rm) * d) == spec_abs((-n) - rm * d));
    }
}

proof fn lemma_round_div_mag_nearest(n: int, d: int)
    requires
        n >= 0,
        d >= 1,
    ensures
        2 * spec_abs(n - spec_round_div_mag(n, d) * d) <= d,
{
    let q = n / d;
    let r = n % d;
    lemma_fundamental_div_mod(n, d);
    assert((q + 1) * d == q * d + d) by (nonlinear_arith);
    assert(q * d == d * q) by (nonlinear_arith);
}

/// Rescaling between two equal time bases returns the timestamp
/// unchanged.
pub proof fn lemma_rescale_identity(pts: int, tb: TimeBase)
    requires
        tb.wf(),
    ensures
        spec_rescale(pts, tb, tb) == pts,
{
    let d = tb.den as int * tb.num as int;
    assert(pts * tb.num * tb.den == pts * d) by (nonlinear_arith)
        requires
            d == tb.den as int * tb.num as int,
    ;
    assert(d >= 1) by (nonlinear_arith)
        requires
            d == tb.den as int * tb.num as int,
            tb.den >= 1,
            tb.num >= 1,
    ;
    if pts >= 0 {
        lemma_mod_multiples_basic(pts, d);
        lemma_div_by_multiple(pts, d);
        assert(spec_round_div_mag(pts * d, d) == pts);
    } else {
        assert(-(pts * d) == (-pts) * d) by (nonlinear_arith);
        lemma_mod_multiples_basic(-pts, d);
        lemma_div_by_multiple(-pts, d);
        assert(spec_round_div_mag((-pts) * d, d) == -pts);
    }
}

/// Rescales a presentation time from one time base into another,
/// rounding to the nearest destination tick with ties away from zero;
/// `None` when the result does not fit a 64-bit timestamp.
pub fn rescale_pts(pts: i64, from: TimeBase, to: TimeBase) -> (r: Option<i64>)
    requires
        from.wf(),
        to.wf(),
    ensures
        r matches Some(p) ==> p as int == spec_rescale(pts as int, from, to),
        r is None ==> !(i64::MIN <= spec_rescale(pts as int, from, to) <= i64::MAX),
{
    let neg: bool = pts < 0;
    let wide: i128 = pts as i128;
    let mag: u128 = if neg {
        (-wide) as u128
    } else {
        wide as u128
    };
    assert(mag as int == spec_abs(pts as int));
    proof {
        assert(mag as int * (from.num as int) <= 0x8000_0000_0000_0000 * 0xffff_ffff)
            by (nonlinear_arith)
            requires
                0 <= mag as int <= 0x8000_0000_0000_0000,
                0 <= from.num as int <= 0xffff_ffff,
        ;
    }
    let nm: u128 = mag * (from.num as u128);
    proof {
        assert(nm as int * (to.den as int) <= 0x8000_0000_0000_0000 * 0xffff_ffff * 0xffff_ffff)
            by (nonlinear_arith)
            requires
                0 <= nm as int <= 0x8000_0000_0000_0000 * 0xffff_ffff,
                0 <= to.den as int <= 0xffff_ffff,
        ;
    }
    let n: u128 = nm * (to.den as u128);
    proof {
        assert((from.den as int) * (to.num as int) <= 0xffff_ffff * 0xffff_ffff)
            by (nonlinear_arith)
            requires
                0 <= from.den as int <= 0xffff_ffff,
                0 <= to.num as int <= 0xffff_ffff,
        ;
        assert((from.den as int) * (to.num as int) >= 1) by (nonlinear_arith)
            requires
                from.den as int >= 1,
                to.num as int >= 1,
        ;
    }
    let d: u128 = (from.den as u128) * (to.num as u128);
    let q: u128 = n / d;
    let rem: u128 = n % d;
    proof {
        vstd::arithmetic::div_mod::lemma_div_nonincreasing(n as int, d as int);
    }
    let rounded: u128 = if 2 * rem >= d {
        q + 1
    } else {
        q
    };
    proof {
        if !neg {
            assert(pts as int * (from.num as int) * (to.den as int) == n as int)
                by (nonlinear_arith)
                requires
                    pts as int == mag as int,
                    nm as int == mag as int * (from.num as int),
                    n as int == nm as int * (to.den as int),
            ;
        } else {
            assert(pts as int * (from.num as int) * (to.den as int) == -(n as int))
                by (nonlinear_arith)
                requires
                    pts as int == -(mag as int),
                    nm as int == mag as int * (from.num as int),
                    n as int == nm as int * (to.den as int),
            ;
        }
        assert(rounded as int == spec_round_div_mag(n as int, d as int));
        let s: int = pts as int * (from.num as int) * (to.den as int);
        let dd: int = (from.den as int) * (to.num as int);
        assert(spec_rescale(pts as int, from, to) == spec_round_div(s, dd));
        assert(dd == d as int);
        if !neg {
            assert(s == n as int);
            assert(spec_rescale(pts as int, from, to) == rounded as int);
        } else {
            assert(mag >= 1);
            assert(n as int >= 1) by (nonlinear_arith)
                requires
                    nm as int == mag as int * (from.num as int),
                    n as int == nm as int * (to.den as int),
                    mag as int >= 1,
                    from.num as int >= 1,
                    to.den as int >= 1,
            ;
            assert(s == -(n as int));
            assert(s < 0);
            assert(spec_rescale(pts as int, from, to) == -(rounded as int));
        }
    }
    if !neg {
        if rounded <= i64::MAX as u128 {
            Some(rounded as i64)
        } else {
            None
        }
    } else {
        if rounded <= i64::MAX as u128 {
            Some(-(rounded as i64))
        } else if rounded == 0x8000_0000_0000_0000u128 {
            Some(i64::MIN)
        } else {
            None
        }
    }
}

} // verus!
