//! Frame pacing against a target rate.
//!
//! A target of zero frames per second means no cap. Any other target fixes
//! the time between two frames at `1_000_000_000 / target` nanoseconds. A
//! polling loop asks whether that time has passed; a blocking loop asks how
//! long it still has to wait. Both answers come from the same comparison.

use vstd::prelude::*;
use crate::clock::nanos_since;
use crate::stream::NANOS_PER_SECOND;

verus! {

/// The time between two frames at `target_fps`, in nanoseconds; `None` where
/// the rate is not capped.
pub open spec fn spec_frame_interval(target_fps: u32) -> Option<u64> {
    if target_fps == 0 {
        None
    } else {
        Some((NANOS_PER_SECOND as int / target_fps as int) as u64)
    }
}

#[verifier::when_used_as_spec(spec_frame_interval)]
pub fn frame_interval(target_fps: u32) -> (interval: Option<u64>)
    ensures
        interval == spec_frame_interval(target_fps),
{
    if target_fps == 0 {
        None
    } else {
        Some(NANOS_PER_SECOND / (target_fps as u64))
    }
}

/// Whether a frame is due when `since_last` nanoseconds have passed since
/// the last one (`None`: no frame was shown yet).
pub open spec fn spec_due(since_last: Option<u64>, target_fps: u32) -> bool {
    match (since_last, spec_frame_interval(target_fps)) {
        (Some(elapsed), Some(interval)) => elapsed >= interval,
        _ => true,
    }
}

/// How long a frame is still to be held back when `since_last` nanoseconds
/// have passed since the last one.
pub open spec fn spec_deficit(since_last: Option<u64>, target_fps: u32) -> u64 {
    match (since_last, spec_frame_interval(target_fps)) {
        (Some(elapsed), Some(interval)) => if elapsed < interval {
            (interval - elapsed) as u64
        } else {
            0
        },
        _ => 0,
    }
}

/// Poll mode on a given reading: the next frame is due without a cap,
/// before the first frame, and once the interval has passed.
#[verifier::when_used_as_spec(spec_due)]
pub fn due(since_last: Option<u64>, target_fps: u32) -> (advance: bool)
    ensures
        advance == spec_due(since_last, target_fps),
        target_fps == 0 ==> advance,
        since_last.is_none() ==> advance,
{
    match (since_last, frame_interval(target_fps)) {
        (Some(elapsed), Some(interval)) => elapsed >= interval,
        _ => true,
    }
}

/// Blocking mode on a given reading: the nanoseconds to sleep before the
/// next frame. Zero without a cap and before the first frame.
#[verifier::when_used_as_spec(spec_deficit)]
pub fn deficit(since_last: Option<u64>, target_fps: u32) -> (wait: u64)
    ensures
        wait == spec_deficit(since_last, target_fps),
        target_fps == 0 ==> wait == 0,
{
    match (since_last, frame_interval(target_fps)) {
        (Some(elapsed), Some(interval)) => if elapsed < interval {
            interval - elapsed
        } else {
            0
        },
        _ => 0,
    }
}

/// The two modes pace alike: a frame is due exactly when there is nothing
/// left to wait for, and whoever sleeps the deficit finds the frame due.
pub proof fn lemma_modes_agree(since_last: Option<u64>, target_fps: u32)
    ensures
        spec_due(since_last, target_fps) <==> spec_deficit(since_last, target_fps) == 0,
        since_last matches Some(elapsed) ==> elapsed + spec_deficit(since_last, target_fps)
            <= u64::MAX && spec_due(
            Some((elapsed + spec_deficit(since_last, target_fps)) as u64),
            target_fps,
        ),
{
}

/// Without a cap a frame is due whatever time has passed.
pub proof fn lemma_uncapped_always_due(since_last: Option<u64>)
    ensures
        spec_due(since_last, 0),
{
}

/// Poll mode on the clock: whether the next frame is due now, `last_emit`
/// being the instant at which the last one was shown.
///
/// Before the first frame the answer is `true`. After it the answer is `due`
/// of the time that the clock gives since `last_emit`. So it is `true`
/// whatever the clock says without a cap, and with a target so high that
/// the interval comes to no whole nanosecond.
pub fn should_advance(last_emit: Option<std::time::Instant>, target_fps: u32) -> (advance: bool)
    ensures
        last_emit.is_none() ==> advance == spec_due(None, target_fps),
        last_emit.is_some() ==> exists|elapsed: u64|
            advance == #[trigger] spec_due(Some(elapsed), target_fps),
        target_fps == 0 ==> advance,
        last_emit.is_none() ==> advance,
        spec_frame_interval(target_fps) == Some(0u64) ==> advance,
{
    match last_emit {
        Some(instant) => {
            let elapsed = nanos_since(&instant);
            let advance = due(Some(elapsed), target_fps);
            assert(advance == spec_due(Some(elapsed), target_fps));
            advance
        },
        None => true,
    }
}

/// Blocking mode on the clock: the nanoseconds to sleep now so that the
/// next frame comes one interval after `last_emit`.
///
/// The answer is `deficit` of the time read: zero without a cap and before
/// the first frame, and never more than one interval.
pub fn wait_before_next(last_emit: Option<std::time::Instant>, target_fps: u32) -> (wait: u64)
    ensures
        target_fps == 0 ==> wait == 0,
        last_emit.is_none() ==> wait == 0,
        spec_frame_interval(target_fps) matches Some(interval) ==> wait <= interval,
{
    match last_emit {
        Some(instant) => {
            let elapsed = nanos_since(&instant);
            deficit(Some(elapsed), target_fps)
        },
        None => 0,
    }
}

} // verus!
