//! Video frame sampling: the schedule of sampled timestamps and the
//! conversion of a wall-clock interval into stream time-base units.
//!
//! Decoding itself is outside work; what is verified here is the sampling
//! plan: which presentation positions are accepted and which timestamps the
//! sampled frames carry.

use vstd::prelude::*;
use vstd::arithmetic::div_mod::{lemma_fundamental_div_mod_converse, lemma_mod_multiples_basic};
use vstd::string::StringExecFns;

use crate::error::AppError;

verus! {

/// Reports whether the video decoding toolchain can be used: the caller
/// probes for it and hands the outcome in, and an absent toolchain is the
/// distinct, fail-fast error kind.
pub fn init_ffmpeg(toolchain_available: bool) -> (r: Result<(), AppError>)
    ensures
        r is Ok <==> toolchain_available,
        !toolchain_available ==> r->Err_0 is ToolchainUnavailable,
{
    if toolchain_available {
        Ok(())
    } else {
        Err(
            AppError::ToolchainUnavailable(
                String::from_str("FFmpeg is not installed or not in system PATH"),
            ),
        )
    }
}

/// A ratio rounded to the nearest whole number, halves rounding up.
pub open spec fn round_nearest(a: int, b: int) -> int
    recommends
        b > 0,
{
    (a + b / 2) / b
}

/// The frame-acceptance interval in stream time-base units: the requested
/// interval (milliseconds) divided by the time base (`tb_num / tb_den`
/// seconds per unit), rounded to the nearest whole unit, and at least one.
pub open spec fn acceptance_interval_spec(tb_num: u32, tb_den: u32, interval_millis: u64) -> int {
    let units = round_nearest(interval_millis * tb_den, 1000 * tb_num);
    if units < 1 {
        1
    } else {
        units
    }
}

/// Converts the requested sampling interval into whole stream time-base
/// units, rounding to the nearest unit, never below one; a result beyond the
/// representable range saturates.
pub fn acceptance_interval(tb_num: u32, tb_den: u32, interval_millis: u64) -> (r: u64)
    requires
        tb_num > 0,
        tb_den > 0,
    ensures
        ({
            let units = acceptance_interval_spec(tb_num, tb_den, interval_millis);
            if units > u64::MAX {
                r == u64::MAX
            } else {
                r == units
            }
        }),
        r >= 1,
{
    proof {
        assert((interval_millis as int) * (tb_den as int) <= 0xffff_ffff_ffff_ffff * 0xffff_ffff)
            by (nonlinear_arith)
            requires
                interval_millis <= 0xffff_ffff_ffff_ffff,
                tb_den <= 0xffff_ffff,
        ;
    }
    let a: u128 = (interval_millis as u128) * (tb_den as u128);
    let b: u128 = 1000u128 * (tb_num as u128);
    let units: u128 = (a + b / 2) / b;
    let clamped: u128 = if units < 1 {
        1
    } else {
        units
    };
    if clamped > u64::MAX as u128 {
        u64::MAX
    } else {
        clamped as u64
    }
}

/// Whether a frame at the given presentation position (in time-base units) is
/// accepted for sampling: exactly the positions that are whole multiples of
/// the acceptance interval.
pub fn accept_frame(position_units: u64, interval_units: u64) -> (r: bool)
    requires
        interval_units > 0,
    ensures
        r == (position_units as int % interval_units as int == 0),
{
    position_units % interval_units == 0
}

/// Plans the extraction of frames from a video at a fixed playback-time
/// interval.
pub struct FrameExtractor {
    /// The path to the video file, carried for the surrounding I/O code.
    pub input_path: String,
    /// The sampling interval in milliseconds; always positive.
    pub interval_millis: u64,
}

impl FrameExtractor {
    /// The sampling interval is positive.
    pub open spec fn wf(&self) -> bool {
        self.interval_millis > 0
    }

    /// Creates a new extraction plan; a zero interval falls back to the
    /// default of one second.
    pub fn new(input_path: String, interval_millis: u64) -> (r: FrameExtractor)
        ensures
            r.input_path == input_path,
            r.interval_millis == if interval_millis > 0 {
                interval_millis as int
            } else {
                1000int
            },
            r.wf(),
    {
        FrameExtractor {
            input_path,
            interval_millis: if interval_millis > 0 {
                interval_millis
            } else {
                1000
            },
        }
    }

    /// The timestamps (milliseconds) at which frames of a stream of the given
    /// duration are sampled: every whole multiple of the interval from zero
    /// through the duration, in strictly increasing order; their number is
    /// `duration / interval + 1`.
    pub fn sample_timestamps(&self, duration_millis: u64) -> (r: Vec<u64>)
        requires
            self.wf(),
        ensures
            r@.len() == duration_millis as int / self.interval_millis as int + 1,
            forall|i: int| 0 <= i < r@.len() ==> r@[i] == i * self.interval_millis,
            forall|i: int| 0 <= i < r@.len() ==> #[trigger] (r@[i] as int) % (
            self.interval_millis as int) == 0,
            forall|i: int, j: int| 0 <= i < j < r@.len() ==> r@[i] < r@[j],
    {
        let k = self.interval_millis;
        let mut r: Vec<u64> = Vec::new();
        let mut t: u64 = 0;
        proof {
            assert(r@.len() * k == 0) by (nonlinear_arith)
                requires
                    r@.len() == 0,
            ;
        }
        loop
            invariant_except_break
                k == self.interval_millis,
                k > 0,
                t <= duration_millis,
                t == r@.len() * k,
                forall|i: int| 0 <= i < r@.len() ==> r@[i] == i * k,
            ensures
                r@.len() == duration_millis as int / k as int + 1,
                forall|i: int| 0 <= i < r@.len() ==> r@[i] == i * k,
            decreases duration_millis - t,
        {
            r.push(t);
            proof {
                assert((r@.len() - 1) * k + k == r@.len() * k) by (nonlinear_arith);
            }
            if k > duration_millis - t {
                proof {
                    lemma_fundamental_div_mod_converse(
                        duration_millis as int,
                        k as int,
                        r@.len() - 1,
                        duration_millis - t,
                    );
                }
                break ;
            }
            t = t + k;
        }
        proof {
            assert forall|i: int| 0 <= i < r@.len() implies #[trigger] (r@[i] as int) % (
            k as int) == 0 by {
                lemma_mod_multiples_basic(i, k as int);
            }
            assert forall|i: int, j: int| 0 <= i < j < r@.len() implies r@[i] < r@[j] by {
                assert(i * k < j * k) by (nonlinear_arith)
                    requires
                        0 <= i < j,
                        k > 0,
                ;
            }
        }
        r
    }
}

} // verus!
