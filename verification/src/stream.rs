//! What a container says about its video stream, and what playback makes
//! of it.
//!
//! Containers count time in ticks of a rational time base and are free to
//! leave the frame count or the duration out. Everything here is computed in
//! whole nanoseconds, rounded down, and cut to 64 bits.

use vstd::prelude::*;
use crate::ratio::Ratio;

verus! {

pub const NANOS_PER_SECOND: u64 = 1_000_000_000;

/// The rate assumed where the stream's own rate is unknown, in frames per
/// second.
pub const DEFAULT_FPS: u64 = 30;

/// The metadata of the selected video stream, as the container reports it.
#[derive(Clone, Copy, Debug)]
pub struct StreamInfo {
    /// Position of the stream in the container.
    pub index: usize,
    /// Number of frames, zero where unknown.
    pub frames: i64,
    /// Length in ticks of the time base, not positive where unknown.
    pub duration: i64,
    pub time_base_num: i32,
    pub time_base_den: i32,
    pub avg_rate_num: i32,
    pub avg_rate_den: i32,
}

/// What playback keeps of a stream once it is open.
#[derive(Clone, Copy, Debug)]
pub struct StreamMeta {
    pub video_stream_index: usize,
    pub width: u32,
    pub height: u32,
    /// The container's estimate; frames may well go on beyond it.
    pub total_frames: u64,
    /// The length of the stream in nanoseconds.
    pub duration: u64,
    pub time_base_num: i32,
    pub time_base_den: i32,
}

pub open spec fn spec_abs(v: int) -> int {
    if v < 0 {
        -v
    } else {
        v
    }
}

/// An integer cut to the range of `u64`.
pub open spec fn spec_clamp(v: int) -> u64 {
    if v < 0 {
        0
    } else if v > u64::MAX {
        u64::MAX
    } else {
        v as u64
    }
}

/// `ticks * num / den` seconds in nanoseconds, rounded down; `None` where
/// that time is negative or the time base has no value.
pub open spec fn spec_scaled_nanos(ticks: i64, num: i32, den: i32) -> Option<int> {
    let p = ticks * num;
    if den == 0 {
        None
    } else if p == 0 {
        Some(0)
    } else if (p > 0) == (den > 0) {
        Some(spec_abs(p) * NANOS_PER_SECOND / spec_abs(den as int))
    } else {
        None
    }
}

/// `ticks * num / den` seconds is a positive time.
pub open spec fn spec_positive_time(ticks: i64, num: i32, den: i32) -> bool {
    ticks * num != 0 && spec_scaled_nanos(ticks, num, den).is_some()
}

/// The frame count that playback goes by: the container's, or zero where it
/// reports a negative one.
pub open spec fn spec_total_frames(frames: i64) -> u64 {
    if frames < 0 {
        0
    } else {
        frames as u64
    }
}

/// The length of the stream in nanoseconds: the container's duration where
/// it is positive; else the frame count divided by the average frame rate
/// where that rate is positive; else one second.
pub open spec fn spec_stream_duration(info: StreamInfo) -> u64 {
    if spec_positive_time(info.duration, info.time_base_num, info.time_base_den) {
        spec_clamp(
            spec_scaled_nanos(info.duration, info.time_base_num, info.time_base_den).unwrap(),
        )
    } else if info.avg_rate_num > 0 && info.avg_rate_den > 0 {
        spec_clamp(
            spec_total_frames(info.frames) * info.avg_rate_den * NANOS_PER_SECOND / (
            info.avg_rate_num as int),
        )
    } else {
        NANOS_PER_SECOND
    }
}

pub open spec fn spec_meta(info: StreamInfo, width: u32, height: u32) -> StreamMeta {
    StreamMeta {
        video_stream_index: info.index,
        width,
        height,
        total_frames: spec_total_frames(info.frames),
        duration: spec_stream_duration(info),
        time_base_num: info.time_base_num,
        time_base_den: info.time_base_den,
    }
}

/// The stream's own rate in frames per second: frames over duration, or the
/// default where the duration is zero.
pub open spec fn spec_native_fps(meta: StreamMeta) -> Ratio {
    if meta.duration > 0 {
        Ratio {
            num: (meta.total_frames * NANOS_PER_SECOND) as u128,
            den: meta.duration as u128,
        }
    } else {
        Ratio { num: DEFAULT_FPS as u128, den: 1 }
    }
}

/// The time of frame number `frame` by the stream's own rate, in
/// nanoseconds: `frame` divided by the native rate where that rate is
/// positive, by the default rate where it is not.
pub open spec fn spec_estimated_time(meta: StreamMeta, frame: u64) -> u64 {
    if meta.duration > 0 && meta.total_frames > 0 {
        spec_clamp(frame * meta.duration / (meta.total_frames as int))
    } else {
        spec_clamp(frame * NANOS_PER_SECOND / (DEFAULT_FPS as int))
    }
}

/// The presentation time of frame number `frame`, in nanoseconds since the
/// start of the stream: the decoder's timestamp in the stream's time base
/// where there is one and it is not negative, the estimate otherwise.
pub open spec fn spec_frame_time(meta: StreamMeta, pts: Option<i64>, frame: u64) -> u64 {
    match pts {
        Some(ticks) => match spec_scaled_nanos(ticks, meta.time_base_num, meta.time_base_den) {
            Some(nanos) => spec_clamp(nanos),
            None => spec_estimated_time(meta, frame),
        },
        None => spec_estimated_time(meta, frame),
    }
}

fn clamp(v: u128) -> (cut: u64)
    ensures
        cut == spec_clamp(v as int),
{
    if v > u64::MAX as u128 {
        u64::MAX
    } else {
        v as u64
    }
}

/// Converts `ticks` of the time base `num / den` to nanoseconds.
///
/// `None` where the time is negative or `den` is zero; otherwise the time
/// rounded down to a nanosecond and cut to 64 bits.
pub fn scaled_nanos(ticks: i64, num: i32, den: i32) -> (nanos: Option<u64>)
    ensures
        nanos.is_some() <==> spec_scaled_nanos(ticks, num, den).is_some(),
        nanos matches Some(n) ==> n == spec_clamp(spec_scaled_nanos(ticks, num, den).unwrap()),
{
    if den == 0 {
        return None;
    }
    assert(-0x8000_0000_0000_0000 * 0x8000_0000 <= ticks * num <= 0x8000_0000_0000_0000
        * 0x8000_0000) by (nonlinear_arith)
        requires
            -0x8000_0000_0000_0000 <= ticks <= 0x8000_0000_0000_0000,
            -0x8000_0000 <= num <= 0x8000_0000,
    ;
    let p: i128 = (ticks as i128) * (num as i128);
    if p == 0 {
        return Some(0);
    }
    if (p > 0) != (den > 0) {
        return None;
    }
    let size: u128 = if p < 0 {
        (-p) as u128
    } else {
        p as u128
    };
    let wide: i64 = den as i64;
    let divisor: u128 = if wide < 0 {
        (-wide) as u128
    } else {
        wide as u128
    };
    let scaled: u128 = size * (NANOS_PER_SECOND as u128);
    Some(clamp(scaled / divisor))
}

/// Converts `ticks` of the time base `num / den` to nanoseconds where that
/// is a positive time, however short; `None` where it is zero, negative or
/// without value.
pub fn positive_nanos(ticks: i64, num: i32, den: i32) -> (nanos: Option<u64>)
    ensures
        nanos.is_some() <==> spec_positive_time(ticks, num, den),
        nanos matches Some(n) ==> n == spec_clamp(spec_scaled_nanos(ticks, num, den).unwrap()),
{
    if ticks == 0 || num == 0 {
        assert(ticks * num == 0) by (nonlinear_arith)
            requires
                ticks == 0 || num == 0,
        ;
        return None;
    }
    assert(ticks * num != 0) by (nonlinear_arith)
        requires
            ticks != 0,
            num != 0,
    ;
    scaled_nanos(ticks, num, den)
}

/// Derives what playback keeps of a stream from the container's report and
/// the decoder's picture size.
pub fn stream_meta(info: &StreamInfo, width: u32, height: u32) -> (meta: StreamMeta)
    ensures
        meta == spec_meta(*info, width, height),
{
    let total_frames: u64 = if info.frames < 0 {
        0
    } else {
        info.frames as u64
    };
    let own = positive_nanos(info.duration, info.time_base_num, info.time_base_den);
    let duration: u64 = if let Some(nanos) = own {
        nanos
    } else if info.avg_rate_num > 0 && info.avg_rate_den > 0 {
        assert(0 <= total_frames * info.avg_rate_den <= 0x8000_0000_0000_0000 * 0x8000_0000)
            by (nonlinear_arith)
            requires
                0 <= total_frames <= 0x8000_0000_0000_0000,
                0 <= info.avg_rate_den <= 0x8000_0000,
        ;
        let span: u128 = (total_frames as u128) * (info.avg_rate_den as u128);
        let scaled: u128 = span * (NANOS_PER_SECOND as u128);
        assert(scaled == total_frames * info.avg_rate_den * NANOS_PER_SECOND);
        clamp(scaled / (info.avg_rate_num as u128))
    } else {
        NANOS_PER_SECOND
    };
    StreamMeta {
        video_stream_index: info.index,
        width,
        height,
        total_frames,
        duration,
        time_base_num: info.time_base_num,
        time_base_den: info.time_base_den,
    }
}

/// The stream's own frame rate.
pub fn native_fps(meta: &StreamMeta) -> (rate: Ratio)
    ensures
        rate == spec_native_fps(*meta),
        rate.wf(),
{
    if meta.duration > 0 {
        assert(0 <= meta.total_frames * NANOS_PER_SECOND <= 0xffff_ffff_ffff_ffff * 1_000_000_000)
            by (nonlinear_arith)
            requires
                0 <= meta.total_frames <= 0xffff_ffff_ffff_ffff,
                NANOS_PER_SECOND == 1_000_000_000,
        ;
        Ratio::new((meta.total_frames as u128) * (NANOS_PER_SECOND as u128), meta.duration as u128)
    } else {
        Ratio::new(DEFAULT_FPS as u128, 1)
    }
}

/// The time of frame number `frame` by the stream's own rate.
pub fn estimated_time(meta: &StreamMeta, frame: u64) -> (nanos: u64)
    ensures
        nanos == spec_estimated_time(*meta, frame),
{
    if meta.duration > 0 && meta.total_frames > 0 {
        assert(0 <= frame * meta.duration <= 0xffff_ffff_ffff_ffff * 0xffff_ffff_ffff_ffff)
            by (nonlinear_arith)
            requires
                0 <= frame <= 0xffff_ffff_ffff_ffff,
                0 <= meta.duration <= 0xffff_ffff_ffff_ffff,
        ;
        let scaled: u128 = (frame as u128) * (meta.duration as u128);
        clamp(scaled / (meta.total_frames as u128))
    } else {
        assert(0 <= frame * NANOS_PER_SECOND <= 0xffff_ffff_ffff_ffff * 1_000_000_000)
            by (nonlinear_arith)
            requires
                0 <= frame <= 0xffff_ffff_ffff_ffff,
                NANOS_PER_SECOND == 1_000_000_000,
        ;
        let scaled: u128 = (frame as u128) * (NANOS_PER_SECOND as u128);
        clamp(scaled / (DEFAULT_FPS as u128))
    }
}

/// The presentation time of frame number `frame`, whose decoder timestamp
/// is `pts`.
pub fn frame_time(meta: &StreamMeta, pts: Option<i64>, frame: u64) -> (nanos: u64)
    ensures
        nanos == spec_frame_time(*meta, pts, frame),
{
    match pts {
        Some(ticks) => match scaled_nanos(ticks, meta.time_base_num, meta.time_base_den) {
            Some(nanos) => nanos,
            None => estimated_time(meta, frame),
        },
        None => estimated_time(meta, frame),
    }
}

} // verus!
