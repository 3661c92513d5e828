//! Session telemetry: what was recorded, and what follows from it.
//!
//! The collector keeps three things apart. A window of the most recent
//! recordings gives the rate right now. Counters kept since the start give
//! the rate of the whole session. The log of every sample gives the best and
//! the worst frame-to-frame rate and the averages of memory and processor
//! use. Peaks only ever rise.
//!
//! Times are nanoseconds, memory is bytes, processor use is thousandths of a
//! percent. Quotients are handed out as exact fractions.

use std::collections::VecDeque;
use vstd::prelude::*;
use crate::clock::nanos_since;
use crate::ratio::Ratio;
use crate::stream::NANOS_PER_SECOND;
use crate::video_player::VideoFrame;

verus! {

/// The number of recordings that the rate right now is taken over.
pub const FPS_WINDOW: usize = 60;

pub const BYTES_PER_MB: u64 = 1_048_576;

/// Processor use is counted in thousandths of a percent.
pub const PARTS_PER_PERCENT: u64 = 1000;

/// What the process used at one moment.
#[derive(Clone, Copy, Debug)]
pub struct SystemSnapshot {
    /// Resident memory in bytes.
    pub memory_bytes: u64,
    /// Processor use in thousandths of a percent.
    pub cpu_millipercent: u64,
}

impl SystemSnapshot {
    /// The memory in megabytes.
    pub fn memory_mb(&self) -> (mb: Ratio)
        ensures
            mb == (Ratio { num: self.memory_bytes as u128, den: BYTES_PER_MB as u128 }),
            mb.wf(),
    {
        Ratio::new(self.memory_bytes as u128, BYTES_PER_MB as u128)
    }

    /// The processor use in percent.
    pub fn cpu_percent(&self) -> (percent: Ratio)
        ensures
            percent == (Ratio {
                num: self.cpu_millipercent as u128,
                den: PARTS_PER_PERCENT as u128,
            }),
            percent.wf(),
    {
        Ratio::new(self.cpu_millipercent as u128, PARTS_PER_PERCENT as u128)
    }
}

/// One recorded frame.
#[derive(Clone, Copy, Debug)]
pub struct FrameMetrics {
    pub frame_number: u64,
    /// Position in the stream, in nanoseconds.
    pub timestamp_nanos: u64,
    /// Time since the recording before, zero for the first.
    pub processing_time_nanos: u64,
    pub memory_usage_bytes: u64,
    pub cpu_usage_millipercent: u64,
}

/// The finished account of a session.
#[derive(Debug)]
pub struct SessionMetrics {
    /// Start of the session in microseconds since the Unix epoch.
    pub start_time: i64,
    /// The moment of this account, in microseconds since the Unix epoch.
    pub end_time: Option<i64>,
    pub total_frames: u64,
    pub total_duration_nanos: u64,
    pub average_fps: Ratio,
    pub max_fps: Ratio,
    /// `None` where no two samples lie a positive time apart: the slowest
    /// rate is then unbounded.
    pub min_fps: Option<Ratio>,
    pub peak_memory_mb: Ratio,
    pub average_memory_mb: Ratio,
    pub average_cpu_percent: Ratio,
    pub peak_cpu_percent: Ratio,
    pub dropped_frames: u64,
    pub frame_metrics: Vec<FrameMetrics>,
}

/// An account as contracts see it.
pub struct SessionView {
    pub start_time: i64,
    pub end_time: Option<i64>,
    pub total_frames: u64,
    pub total_duration_nanos: u64,
    pub average_fps: Ratio,
    pub max_fps: Ratio,
    pub min_fps: Option<Ratio>,
    pub peak_memory_mb: Ratio,
    pub average_memory_mb: Ratio,
    pub average_cpu_percent: Ratio,
    pub peak_cpu_percent: Ratio,
    pub dropped_frames: u64,
    pub frame_metrics: Seq<FrameMetrics>,
}

impl View for SessionMetrics {
    type V = SessionView;

    open spec fn view(&self) -> SessionView {
        SessionView {
            start_time: self.start_time,
            end_time: self.end_time,
            total_frames: self.total_frames,
            total_duration_nanos: self.total_duration_nanos,
            average_fps: self.average_fps,
            max_fps: self.max_fps,
            min_fps: self.min_fps,
            peak_memory_mb: self.peak_memory_mb,
            average_memory_mb: self.average_memory_mb,
            average_cpu_percent: self.average_cpu_percent,
            peak_cpu_percent: self.peak_cpu_percent,
            dropped_frames: self.dropped_frames,
            frame_metrics: self.frame_metrics@,
        }
    }
}

pub open spec fn spec_max(a: u64, b: u64) -> u64 {
    if a >= b {
        a
    } else {
        b
    }
}

/// The greater of two fractions, the first where they are equal.
pub open spec fn spec_greater(a: Ratio, b: Ratio) -> Ratio {
    if b.le(a) {
        a
    } else {
        b
    }
}

/// The lesser of two fractions, the first where they are equal.
pub open spec fn spec_lesser(a: Ratio, b: Ratio) -> Ratio {
    if a.le(b) {
        a
    } else {
        b
    }
}

/// The rate over the window: frames numbered between its first and its last
/// entry, over the time between them. Zero with fewer than two entries,
/// where no time has passed, and where the numbers do not rise.
pub open spec fn spec_current_fps(window: Seq<(u64, u64)>) -> Ratio {
    if window.len() < 2 {
        Ratio::spec_zero()
    } else {
        let (first_time, first_frame) = window.first();
        let (last_time, last_frame) = window.last();
        if last_time > first_time && last_frame >= first_frame {
            Ratio {
                num: ((last_frame - first_frame) * NANOS_PER_SECOND) as u128,
                den: (last_time - first_time) as u128,
            }
        } else {
            Ratio::spec_zero()
        }
    }
}

/// The rate of the session: frames recorded over the time since it began,
/// zero where no time has passed.
pub open spec fn spec_average_fps(total_frames: u64, elapsed: u64) -> Ratio {
    if elapsed > 0 {
        Ratio { num: (total_frames * NANOS_PER_SECOND) as u128, den: elapsed as u128 }
    } else {
        Ratio::spec_zero()
    }
}

/// The stream time between sample `i` and the next.
pub open spec fn spec_gap(log: Seq<FrameMetrics>, i: int) -> int {
    log[i + 1].timestamp_nanos - log[i].timestamp_nanos
}

/// The rate between sample `i` and the next: one frame over the stream time
/// between them. It is defined where that time is positive.
pub open spec fn spec_pair_rate(log: Seq<FrameMetrics>, i: int) -> Ratio {
    Ratio { num: NANOS_PER_SECOND as u128, den: spec_gap(log, i) as u128 }
}

/// The greatest rate among the first `pairs` pairs of neighbours, a pair
/// that lies no positive time apart counting as zero.
pub open spec fn spec_max_rate(log: Seq<FrameMetrics>, pairs: int) -> Ratio
    decreases pairs,
{
    if pairs <= 0 {
        Ratio::spec_zero()
    } else if spec_gap(log, pairs - 1) > 0 {
        spec_greater(spec_max_rate(log, pairs - 1), spec_pair_rate(log, pairs - 1))
    } else {
        spec_max_rate(log, pairs - 1)
    }
}

/// The least rate among the first `pairs` pairs of neighbours, a pair that
/// lies no positive time apart counting as unbounded; `None` where every
/// pair does.
pub open spec fn spec_min_rate(log: Seq<FrameMetrics>, pairs: int) -> Option<Ratio>
    decreases pairs,
{
    if pairs <= 0 {
        None
    } else if spec_gap(log, pairs - 1) > 0 {
        match spec_min_rate(log, pairs - 1) {
            Some(least) => Some(spec_lesser(least, spec_pair_rate(log, pairs - 1))),
            None => Some(spec_pair_rate(log, pairs - 1)),
        }
    } else {
        spec_min_rate(log, pairs - 1)
    }
}

pub open spec fn spec_max_fps(log: Seq<FrameMetrics>) -> Ratio {
    spec_max_rate(log, log.len() - 1)
}

pub open spec fn spec_min_fps(log: Seq<FrameMetrics>) -> Option<Ratio> {
    spec_min_rate(log, log.len() - 1)
}

/// The memory of the first `count` samples, added up.
pub open spec fn spec_memory_sum(log: Seq<FrameMetrics>, count: int) -> int
    decreases count,
{
    if count <= 0 {
        0
    } else {
        spec_memory_sum(log, count - 1) + log[count - 1].memory_usage_bytes
    }
}

/// The processor use of the first `count` samples, added up.
pub open spec fn spec_cpu_sum(log: Seq<FrameMetrics>, count: int) -> int
    decreases count,
{
    if count <= 0 {
        0
    } else {
        spec_cpu_sum(log, count - 1) + log[count - 1].cpu_usage_millipercent
    }
}

/// `sum / (count * unit)`: the mean of `count` values in multiples of
/// `unit`, zero where there are none.
pub open spec fn spec_mean(sum: int, count: nat, unit: u64) -> Ratio {
    if count == 0 {
        Ratio::spec_zero()
    } else {
        Ratio { num: sum as u128, den: (count * unit) as u128 }
    }
}

pub open spec fn spec_average_memory_mb(log: Seq<FrameMetrics>) -> Ratio {
    spec_mean(spec_memory_sum(log, log.len() as int), log.len(), BYTES_PER_MB)
}

pub open spec fn spec_average_cpu_percent(log: Seq<FrameMetrics>) -> Ratio {
    spec_mean(spec_cpu_sum(log, log.len() as int), log.len(), PARTS_PER_PERCENT)
}

/// Everything the collector has gathered.
pub struct MetricsState {
    /// The instant on the monotonic clock at which the session began. The
    /// session's duration and rate are measured from it.
    pub session_start: std::time::Instant,
    /// Start of the session in microseconds since the Unix epoch.
    pub start_utc: i64,
    /// The most recent recordings, oldest first: the time since the start
    /// of the session in nanoseconds, and the frame number.
    pub window: Seq<(u64, u64)>,
    pub log: Seq<FrameMetrics>,
    pub total_frames: u64,
    pub peak_memory: u64,
    pub peak_cpu: u64,
    pub dropped_frames: u64,
    /// The time of the last recording.
    pub last_frame_time: Option<u64>,
}

impl MetricsState {
    /// The window is within its bound and every recording is in the log.
    pub open spec fn wf(self) -> bool {
        &&& self.window.len() <= FPS_WINDOW
        &&& self.log.len() == self.total_frames
    }

    /// A session in which nothing was recorded.
    pub open spec fn spec_new(session_start: std::time::Instant, start_utc: i64) -> MetricsState {
        MetricsState {
            session_start,
            start_utc,
            window: Seq::empty(),
            log: Seq::empty(),
            total_frames: 0,
            peak_memory: 0,
            peak_cpu: 0,
            dropped_frames: 0,
            last_frame_time: None,
        }
    }

    /// The sample that a recording at `now` adds to the log.
    pub open spec fn sample(
        self,
        now: u64,
        frame_number: u64,
        timestamp: u64,
        snapshot: SystemSnapshot,
    ) -> FrameMetrics {
        FrameMetrics {
            frame_number,
            timestamp_nanos: timestamp,
            processing_time_nanos: match self.last_frame_time {
                Some(last) => if now >= last {
                    (now - last) as u64
                } else {
                    0
                },
                None => 0,
            },
            memory_usage_bytes: snapshot.memory_bytes,
            cpu_usage_millipercent: snapshot.cpu_millipercent,
        }
    }

    /// The state after a frame was recorded at `now`: the sample joins the
    /// log, the peaks rise to the snapshot where it exceeds them, the
    /// recording enters the window and pushes the oldest out where the window
    /// was full, and the frame is counted.
    pub open spec fn record(
        self,
        now: u64,
        frame_number: u64,
        timestamp: u64,
        snapshot: SystemSnapshot,
    ) -> MetricsState {
        let entered = self.window.push((now, frame_number));
        MetricsState {
            session_start: self.session_start,
            start_utc: self.start_utc,
            window: if entered.len() > FPS_WINDOW {
                entered.drop_first()
            } else {
                entered
            },
            log: self.log.push(self.sample(now, frame_number, timestamp, snapshot)),
            total_frames: (self.total_frames + 1) as u64,
            peak_memory: spec_max(self.peak_memory, snapshot.memory_bytes),
            peak_cpu: spec_max(self.peak_cpu, snapshot.cpu_millipercent),
            dropped_frames: self.dropped_frames,
            last_frame_time: Some(now),
        }
    }

    /// The account of the session `elapsed` nanoseconds after its start, at
    /// the calendar time `end_utc`.
    pub open spec fn report(self, elapsed: u64, end_utc: i64) -> SessionView {
        SessionView {
            start_time: self.start_utc,
            end_time: Some(end_utc),
            total_frames: self.total_frames,
            total_duration_nanos: elapsed,
            average_fps: spec_average_fps(self.total_frames, elapsed),
            max_fps: spec_max_fps(self.log),
            min_fps: spec_min_fps(self.log),
            peak_memory_mb: Ratio { num: self.peak_memory as u128, den: BYTES_PER_MB as u128 },
            average_memory_mb: spec_average_memory_mb(self.log),
            average_cpu_percent: spec_average_cpu_percent(self.log),
            peak_cpu_percent: Ratio {
                num: self.peak_cpu as u128,
                den: PARTS_PER_PERCENT as u128,
            },
            dropped_frames: self.dropped_frames,
            frame_metrics: self.log,
        }
    }
}

/// Gathers the telemetry of one session.
#[derive(Debug)]
pub struct MetricsCollector {
    session_start: std::time::Instant,
    session_start_utc: i64,
    frame_times: VecDeque<(u64, u64)>,
    frame_metrics: Vec<FrameMetrics>,
    total_frames: u64,
    peak_memory: u64,
    peak_cpu: u64,
    dropped_frames: u64,
    last_frame_time: Option<u64>,
}

impl View for MetricsCollector {
    type V = MetricsState;

    closed spec fn view(&self) -> MetricsState {
        MetricsState {
            session_start: self.session_start,
            start_utc: self.session_start_utc,
            window: self.frame_times@,
            log: self.frame_metrics@,
            total_frames: self.total_frames,
            peak_memory: self.peak_memory,
            peak_cpu: self.peak_cpu,
            dropped_frames: self.dropped_frames,
            last_frame_time: self.last_frame_time,
        }
    }
}

fn one_frame_over(gap: u64) -> (rate: Ratio)
    requires
        gap > 0,
    ensures
        rate == (Ratio { num: NANOS_PER_SECOND as u128, den: gap as u128 }),
        rate.wf(),
        rate.num <= u64::MAX,
        rate.den <= u64::MAX,
{
    Ratio::new(NANOS_PER_SECOND as u128, gap as u128)
}

fn mean(sum: u128, count: usize, unit: u64) -> (quotient: Ratio)
    requires
        unit > 0,
        unit <= 0xffff_ffff,
    ensures
        quotient == spec_mean(sum as int, count as nat, unit),
        quotient.wf(),
{
    if count == 0 {
        Ratio::zero()
    } else {
        assert(0 < count * unit <= 0xffff_ffff_ffff_ffff * 0xffff_ffff) by (nonlinear_arith)
            requires
                0 < count <= 0xffff_ffff_ffff_ffff,
                0 < unit <= 0xffff_ffff,
        ;
        Ratio::new(sum, (count as u128) * (unit as u128))
    }
}

impl MetricsCollector {
    /// Starts a session now. The monotonic clock is read here, and the
    /// session's duration and rate are measured from this moment on;
    /// `start_utc` is the calendar time of the same moment in microseconds
    /// since the Unix epoch, as the caller has read it.
    pub fn new(start_utc: i64) -> (collector: MetricsCollector)
        ensures
            collector@ == MetricsState::spec_new(collector@.session_start, start_utc),
            collector@.wf(),
    {
        MetricsCollector {
            session_start: std::time::Instant::now(),
            session_start_utc: start_utc,
            frame_times: VecDeque::new(),
            frame_metrics: Vec::new(),
            total_frames: 0,
            peak_memory: 0,
            peak_cpu: 0,
            dropped_frames: 0,
            last_frame_time: None,
        }
    }

    /// Records a frame now. The time of the recording is read from the
    /// clock; what is recorded is what `record_frame_at` records for that
    /// time, which the state afterwards holds as the time of its last
    /// recording.
    pub fn record_frame(&mut self, frame_number: u64, frame: &VideoFrame, snapshot: SystemSnapshot)
        requires
            old(self)@.wf(),
        ensures
            final(self)@.wf(),
            final(self)@.last_frame_time.is_some(),
            final(self)@ == old(self)@.record(
                final(self)@.last_frame_time.unwrap(),
                frame_number,
                frame.timestamp,
                snapshot,
            ),
            final(self)@.session_start == old(self)@.session_start,
    {
        let now = nanos_since(&self.session_start);
        self.record_frame_at(now, frame_number, frame, snapshot);
    }

    /// Records a frame at `now` nanoseconds after the start of the session.
    ///
    /// The sample added to the log holds the frame's number and stream time,
    /// the snapshot, and the time since the recording before (zero for the
    /// first, and where the clock went back). Peaks rise to the snapshot
    /// where it exceeds them. The window takes the recording and gives up
    /// its oldest entry once it holds more than `FPS_WINDOW`.
    pub fn record_frame_at(
        &mut self,
        now: u64,
        frame_number: u64,
        frame: &VideoFrame,
        snapshot: SystemSnapshot,
    )
        requires
            old(self)@.wf(),
        ensures
            final(self)@.wf(),
            final(self)@ == old(self)@.record(now, frame_number, frame.timestamp, snapshot),
            final(self)@.session_start == old(self)@.session_start,
            final(self)@.peak_memory >= old(self)@.peak_memory,
            final(self)@.peak_cpu >= old(self)@.peak_cpu,
            final(self)@.total_frames == old(self)@.total_frames + 1,
    {
        let processing: u64 = match self.last_frame_time {
            Some(last) => if now >= last {
                now - last
            } else {
                0
            },
            None => 0,
        };
        if snapshot.memory_bytes > self.peak_memory {
            self.peak_memory = snapshot.memory_bytes;
        }
        if snapshot.cpu_millipercent > self.peak_cpu {
            self.peak_cpu = snapshot.cpu_millipercent;
        }
        self.frame_metrics.push(
            FrameMetrics {
                frame_number,
                timestamp_nanos: frame.timestamp,
                processing_time_nanos: processing,
                memory_usage_bytes: snapshot.memory_bytes,
                cpu_usage_millipercent: snapshot.cpu_millipercent,
            },
        );
        self.frame_times.push_back((now, frame_number));
        if self.frame_times.len() > FPS_WINDOW {
            let _ = self.frame_times.pop_front();
        }
        self.total_frames = self.frame_metrics.len() as u64;
        self.last_frame_time = Some(now);
        proof {
            assert(self@.window =~= old(self)@.record(
                now,
                frame_number,
                frame.timestamp,
                snapshot,
            ).window);
        }
    }

    /// The rate right now, over the window.
    pub fn get_current_fps(&self) -> (rate: Ratio)
        ensures
            rate == spec_current_fps(self@.window),
            rate.wf(),
            self@.window.len() < 2 ==> rate == Ratio::spec_zero(),
    {
        let held: usize = self.frame_times.len();
        if held < 2 {
            return Ratio::zero();
        }
        let (first_time, first_frame) = self.frame_times[0];
        let (last_time, last_frame) = self.frame_times[held - 1];
        if last_time > first_time && last_frame >= first_frame {
            assert(0 <= (last_frame - first_frame) * NANOS_PER_SECOND <= 0xffff_ffff_ffff_ffff
                * 1_000_000_000) by (nonlinear_arith)
                requires
                    0 <= last_frame - first_frame <= 0xffff_ffff_ffff_ffff,
                    NANOS_PER_SECOND == 1_000_000_000,
            ;
            Ratio::new(
                ((last_frame - first_frame) as u128) * (NANOS_PER_SECOND as u128),
                (last_time - first_time) as u128,
            )
        } else {
            Ratio::zero()
        }
    }

    /// The rate of the session `elapsed` nanoseconds after its start.
    pub fn get_average_fps_at(&self, elapsed: u64) -> (rate: Ratio)
        ensures
            rate == spec_average_fps(self@.total_frames, elapsed),
            rate.wf(),
    {
        if elapsed > 0 {
            assert(0 <= self.total_frames * NANOS_PER_SECOND <= 0xffff_ffff_ffff_ffff
                * 1_000_000_000) by (nonlinear_arith)
                requires
                    0 <= self.total_frames <= 0xffff_ffff_ffff_ffff,
                    NANOS_PER_SECOND == 1_000_000_000,
            ;
            Ratio::new((self.total_frames as u128) * (NANOS_PER_SECOND as u128), elapsed as u128)
        } else {
            Ratio::zero()
        }
    }

    /// The rate of the session up to now: `get_average_fps_at` of the time
    /// read from the clock, which is the denominator of the result where the
    /// result is not the zero of a session without duration.
    pub fn get_average_fps(&self) -> (rate: Ratio)
        ensures
            rate.wf(),
            rate == Ratio::spec_zero() || (rate.den <= u64::MAX && rate == spec_average_fps(
                self@.total_frames,
                rate.den as u64,
            )),
    {
        self.get_average_fps_at(nanos_since(&self.session_start))
    }

    /// The best frame-to-frame rate of the log: the greatest of one frame
    /// over the stream time between two neighbours, zero where no two
    /// neighbours lie a positive time apart.
    pub fn get_max_fps(&self) -> (rate: Ratio)
        ensures
            rate == spec_max_fps(self@.log),
            rate.wf(),
    {
        let count: usize = self.frame_metrics.len();
        let mut best = Ratio::zero();
        if count < 2 {
            return best;
        }
        let mut i: usize = 0;
        while i + 1 < count
            invariant
                count == self.frame_metrics@.len(),
                count >= 2,
                0 <= i <= count - 1,
                best == spec_max_rate(self.frame_metrics@, i as int),
                best.wf(),
                best.num <= u64::MAX,
                best.den <= u64::MAX,
            decreases count - i,
        {
            let earlier: u64 = self.frame_metrics[i].timestamp_nanos;
            let later: u64 = self.frame_metrics[i + 1].timestamp_nanos;
            if later > earlier {
                let rate = one_frame_over(later - earlier);
                if !rate.at_most(&best) {
                    best = rate;
                }
            }
            i += 1;
        }
        best
    }

    /// The worst frame-to-frame rate of the log: the least of one frame over
    /// the stream time between two neighbours that lie a positive time
    /// apart; `None`, for unbounded, where no two do.
    pub fn get_min_fps(&self) -> (rate: Option<Ratio>)
        ensures
            rate == spec_min_fps(self@.log),
            rate matches Some(least) ==> least.wf(),
    {
        let count: usize = self.frame_metrics.len();
        let mut worst: Option<Ratio> = None;
        if count < 2 {
            return worst;
        }
        let mut i: usize = 0;
        while i + 1 < count
            invariant
                count == self.frame_metrics@.len(),
                count >= 2,
                0 <= i <= count - 1,
                worst == spec_min_rate(self.frame_metrics@, i as int),
                worst matches Some(least) ==> least.wf() && least.num <= u64::MAX && least.den
                    <= u64::MAX,
            decreases count - i,
        {
            let earlier: u64 = self.frame_metrics[i].timestamp_nanos;
            let later: u64 = self.frame_metrics[i + 1].timestamp_nanos;
            if later > earlier {
                let rate = one_frame_over(later - earlier);
                worst = match worst {
                    Some(least) => if least.at_most(&rate) {
                        Some(least)
                    } else {
                        Some(rate)
                    },
                    None => Some(rate),
                };
            }
            i += 1;
        }
        worst
    }

    /// The highest memory use recorded, in megabytes.
    pub fn get_peak_memory_mb(&self) -> (peak: Ratio)
        ensures
            peak == (Ratio { num: self@.peak_memory as u128, den: BYTES_PER_MB as u128 }),
            peak.wf(),
    {
        Ratio::new(self.peak_memory as u128, BYTES_PER_MB as u128)
    }

    /// The mean memory use over the log, in megabytes; zero for an empty
    /// log.
    pub fn get_average_memory_mb(&self) -> (average: Ratio)
        ensures
            average == spec_average_memory_mb(self@.log),
            average.wf(),
    {
        let count: usize = self.frame_metrics.len();
        let mut sum: u128 = 0;
        let mut i: usize = 0;
        while i < count
            invariant
                count == self.frame_metrics@.len(),
                0 <= i <= count,
                sum == spec_memory_sum(self.frame_metrics@, i as int),
                sum <= i * 0xffff_ffff_ffff_ffff,
            decreases count - i,
        {
            assert((i + 1) * 0xffff_ffff_ffff_ffff <= 0xffff_ffff_ffff_ffff
                * 0xffff_ffff_ffff_ffff) by (nonlinear_arith)
                requires
                    i + 1 <= 0xffff_ffff_ffff_ffff,
            ;
            assert((i + 1) * 0xffff_ffff_ffff_ffff == i * 0xffff_ffff_ffff_ffff
                + 0xffff_ffff_ffff_ffff) by (nonlinear_arith);
            sum = sum + (self.frame_metrics[i].memory_usage_bytes as u128);
            i += 1;
        }
        mean(sum, count, BYTES_PER_MB)
    }

    /// The highest processor use recorded, in percent.
    pub fn get_peak_cpu_percent(&self) -> (peak: Ratio)
        ensures
            peak == (Ratio { num: self@.peak_cpu as u128, den: PARTS_PER_PERCENT as u128 }),
            peak.wf(),
    {
        Ratio::new(self.peak_cpu as u128, PARTS_PER_PERCENT as u128)
    }

    /// The mean processor use over the log, in percent; zero for an empty
    /// log.
    pub fn get_average_cpu_percent(&self) -> (average: Ratio)
        ensures
            average == spec_average_cpu_percent(self@.log),
            average.wf(),
    {
        let count: usize = self.frame_metrics.len();
        let mut sum: u128 = 0;
        let mut i: usize = 0;
        while i < count
            invariant
                count == self.frame_metrics@.len(),
                0 <= i <= count,
                sum == spec_cpu_sum(self.frame_metrics@, i as int),
                sum <= i * 0xffff_ffff_ffff_ffff,
            decreases count - i,
        {
            assert((i + 1) * 0xffff_ffff_ffff_ffff <= 0xffff_ffff_ffff_ffff
                * 0xffff_ffff_ffff_ffff) by (nonlinear_arith)
                requires
                    i + 1 <= 0xffff_ffff_ffff_ffff,
            ;
            assert((i + 1) * 0xffff_ffff_ffff_ffff == i * 0xffff_ffff_ffff_ffff
                + 0xffff_ffff_ffff_ffff) by (nonlinear_arith);
            sum = sum + (self.frame_metrics[i].cpu_usage_millipercent as u128);
            i += 1;
        }
        mean(sum, count, PARTS_PER_PERCENT)
    }

    /// The number of frames that the driving loop has declared dropped.
    pub fn get_dropped_frames(&self) -> (count: u64)
        ensures
            count == self@.dropped_frames,
    {
        self.dropped_frames
    }

    /// Counts one more dropped frame. Nothing else changes: drops are
    /// declared by the driving loop and never inferred from the log.
    pub fn increment_dropped_frames(&mut self)
        requires
            old(self)@.dropped_frames < u64::MAX,
        ensures
            final(self)@ == (MetricsState {
                dropped_frames: (old(self)@.dropped_frames + 1) as u64,
                ..old(self)@
            }),
            final(self)@.session_start == old(self)@.session_start,
    {
        self.dropped_frames = self.dropped_frames + 1;
    }

    /// The nanoseconds since the session began, as the clock has them now.
    pub fn get_session_duration(&self) -> (nanos: u64) {
        nanos_since(&self.session_start)
    }

    /// The number of frames recorded.
    pub fn get_total_frames(&self) -> (count: u64)
        ensures
            count == self@.total_frames,
    {
        self.total_frames
    }

    /// The samples recorded so far, oldest first.
    pub fn get_frame_metrics(&self) -> (log: Vec<FrameMetrics>)
        ensures
            log@ == self@.log,
    {
        let count: usize = self.frame_metrics.len();
        let mut log: Vec<FrameMetrics> = Vec::new();
        let mut i: usize = 0;
        while i < count
            invariant
                count == self.frame_metrics@.len(),
                0 <= i <= count,
                log@ == self.frame_metrics@.subrange(0, i as int),
            decreases count - i,
        {
            log.push(self.frame_metrics[i]);
            proof {
                assert(log@ =~= self.frame_metrics@.subrange(0, i + 1));
            }
            i += 1;
        }
        proof {
            assert(log@ =~= self.frame_metrics@);
        }
        log
    }

    /// The account of the session `elapsed` nanoseconds after its start, at
    /// the calendar time `end_utc`. The collector is left as it is, so the
    /// account may be drawn up as often as wanted.
    pub fn finalize_session_at(&self, elapsed: u64, end_utc: i64) -> (report: SessionMetrics)
        ensures
            report@ == self@.report(elapsed, end_utc),
    {
        SessionMetrics {
            start_time: self.session_start_utc,
            end_time: Some(end_utc),
            total_frames: self.total_frames,
            total_duration_nanos: elapsed,
            average_fps: self.get_average_fps_at(elapsed),
            max_fps: self.get_max_fps(),
            min_fps: self.get_min_fps(),
            peak_memory_mb: self.get_peak_memory_mb(),
            average_memory_mb: self.get_average_memory_mb(),
            average_cpu_percent: self.get_average_cpu_percent(),
            peak_cpu_percent: self.get_peak_cpu_percent(),
            dropped_frames: self.dropped_frames,
            frame_metrics: self.get_frame_metrics(),
        }
    }

    /// The account of the session as of now, `end_utc` being the calendar
    /// time in microseconds since the Unix epoch as the caller has read it:
    /// `finalize_session_at` of the time read from the session's clock, which
    /// the account itself holds as its duration.
    pub fn finalize_session(&self, end_utc: i64) -> (report: SessionMetrics)
        ensures
            report@ == self@.report(report.total_duration_nanos, end_utc),
    {
        let elapsed = nanos_since(&self.session_start);
        self.finalize_session_at(elapsed, end_utc)
    }
}

/// One recording, as the laws of a session speak of it.
pub struct Observation {
    pub now: u64,
    pub frame_number: u64,
    pub timestamp: u64,
    pub snapshot: SystemSnapshot,
}

impl MetricsState {
    /// The state after the recordings `seen`, in their order.
    pub open spec fn record_all(self, seen: Seq<Observation>) -> MetricsState
        decreases seen.len(),
    {
        if seen.len() == 0 {
            self
        } else {
            let o = seen.last();
            self.record_all(seen.drop_last()).record(
                o.now,
                o.frame_number,
                o.timestamp,
                o.snapshot,
            )
        }
    }
}

/// Peaks never fall: whatever is recorded, in whatever order, the peaks
/// afterwards are no lower than before and no lower than any snapshot
/// recorded.
pub proof fn lemma_peaks_never_fall(state: MetricsState, seen: Seq<Observation>)
    ensures
        state.record_all(seen).peak_memory >= state.peak_memory,
        state.record_all(seen).peak_cpu >= state.peak_cpu,
        forall|i: int|
            0 <= i < seen.len() ==> state.record_all(seen).peak_memory >= (
            #[trigger] seen[i]).snapshot.memory_bytes && state.record_all(seen).peak_cpu
                >= seen[i].snapshot.cpu_millipercent,
    decreases seen.len(),
{
    if seen.len() > 0 {
        let earlier = seen.drop_last();
        lemma_peaks_never_fall(state, earlier);
        assert forall|i: int| 0 <= i < seen.len() implies state.record_all(seen).peak_memory >= (
        #[trigger] seen[i]).snapshot.memory_bytes && state.record_all(seen).peak_cpu
            >= seen[i].snapshot.cpu_millipercent by {
            if i < seen.len() - 1 {
                assert(earlier[i] == seen[i]);
            }
        }
    }
}

/// A session keeps its books in order: after any recordings every one of
/// them is counted and logged, the window holds the most recent of them and
/// never more than `FPS_WINDOW`, and the drops are what they were.
pub proof fn lemma_session_keeps_count(state: MetricsState, seen: Seq<Observation>)
    requires
        state.wf(),
        state.total_frames + seen.len() <= u64::MAX,
    ensures
        state.record_all(seen).wf(),
        state.record_all(seen).total_frames == state.total_frames + seen.len(),
        state.record_all(seen).log.len() == state.log.len() + seen.len(),
        state.record_all(seen).dropped_frames == state.dropped_frames,
        state.record_all(seen).start_utc == state.start_utc,
        state.record_all(seen).session_start == state.session_start,
        seen.len() > 0 ==> state.record_all(seen).window.last() == (
            seen.last().now,
            seen.last().frame_number,
        ),
    decreases seen.len(),
{
    if seen.len() > 0 {
        lemma_session_keeps_count(state, seen.drop_last());
    }
}

/// The window is first in, first out: in a session that began empty it
/// holds the most recent recordings, `FPS_WINDOW` of them at most, oldest
/// first.
pub proof fn lemma_window_holds_the_latest(
    session_start: std::time::Instant,
    start_utc: i64,
    seen: Seq<Observation>,
)
    ensures
        ({
            let window = MetricsState::spec_new(session_start, start_utc).record_all(seen).window;
            let held = if seen.len() <= FPS_WINDOW {
                seen.len() as int
            } else {
                FPS_WINDOW as int
            };
            &&& window.len() == held
            &&& forall|i: int|
                0 <= i < held ==> #[trigger] window[i] == (
                    seen[seen.len() - held + i].now,
                    seen[seen.len() - held + i].frame_number,
                )
        }),
    decreases seen.len(),
{
    if seen.len() > 0 {
        let earlier = seen.drop_last();
        lemma_window_holds_the_latest(session_start, start_utc, earlier);
        let before = MetricsState::spec_new(session_start, start_utc).record_all(earlier).window;
        let window = MetricsState::spec_new(session_start, start_utc).record_all(seen).window;
        let held = if seen.len() <= FPS_WINDOW {
            seen.len() as int
        } else {
            FPS_WINDOW as int
        };
        assert forall|i: int| 0 <= i < held implies #[trigger] window[i] == (
            seen[seen.len() - held + i].now,
            seen[seen.len() - held + i].frame_number,
        ) by {
            if i < held - 1 {
                let j = seen.len() - held + i;
                assert(earlier[j] == seen[j]);
            }
        }
    }
}

/// The best rate is the greatest of the rates between neighbours: it is
/// zero exactly where no two neighbours lie a positive time apart, and
/// otherwise it is the rate of one such pair and no such pair has a greater
/// one.
pub proof fn lemma_max_rate_is_greatest(log: Seq<FrameMetrics>, pairs: int)
    requires
        0 <= pairs <= log.len() - 1,
    ensures
        spec_max_rate(log, pairs).wf(),
        forall|i: int|
            0 <= i < pairs && #[trigger] spec_gap(log, i) > 0 ==> spec_pair_rate(log, i).le(
                spec_max_rate(log, pairs),
            ),
        spec_max_rate(log, pairs) == Ratio::spec_zero() <==> (forall|i: int|
            0 <= i < pairs ==> #[trigger] spec_gap(log, i) <= 0),
        spec_max_rate(log, pairs) != Ratio::spec_zero() ==> exists|i: int|
            0 <= i < pairs && #[trigger] spec_gap(log, i) > 0 && spec_max_rate(log, pairs)
                == spec_pair_rate(log, i),
    decreases pairs,
{
    if pairs > 0 {
        lemma_max_rate_is_greatest(log, pairs - 1);
        let before = spec_max_rate(log, pairs - 1);
        let last = pairs - 1;
        if before != Ratio::spec_zero() {
            let k = choose|i: int|
                0 <= i < pairs - 1 && #[trigger] spec_gap(log, i) > 0 && before == spec_pair_rate(
                    log,
                    i,
                );
            assert(spec_gap(log, k) > 0);
        }
        if spec_gap(log, last) > 0 {
            let rate = spec_pair_rate(log, last);
            assert(rate != Ratio::spec_zero());
            assert(spec_max_rate(log, pairs) == before || spec_max_rate(log, pairs) == rate);
        }
    }
}

/// The worst rate is the least of the rates between neighbours that lie a
/// positive time apart: there is none exactly where no pair does, and
/// otherwise it is the rate of one such pair and no such pair has a lesser
/// one.
pub proof fn lemma_min_rate_is_least(log: Seq<FrameMetrics>, pairs: int)
    requires
        0 <= pairs <= log.len() - 1,
    ensures
        spec_min_rate(log, pairs).is_none() <==> (forall|i: int|
            0 <= i < pairs ==> #[trigger] spec_gap(log, i) <= 0),
        spec_min_rate(log, pairs) matches Some(least) ==> {
            &&& least.wf()
            &&& forall|i: int|
                0 <= i < pairs && #[trigger] spec_gap(log, i) > 0 ==> least.le(
                    spec_pair_rate(log, i),
                )
            &&& exists|i: int|
                0 <= i < pairs && #[trigger] spec_gap(log, i) > 0 && least == spec_pair_rate(
                    log,
                    i,
                )
        },
    decreases pairs,
{
    if pairs > 0 {
        lemma_min_rate_is_least(log, pairs - 1);
        let last = pairs - 1;
        match spec_min_rate(log, pairs - 1) {
            Some(before) => {
                let k = choose|i: int|
                    0 <= i < pairs - 1 && #[trigger] spec_gap(log, i) > 0 && before
                        == spec_pair_rate(log, i);
                assert(spec_gap(log, k) > 0);
            },
            None => {},
        }
        if spec_gap(log, last) > 0 {
            assert(spec_min_rate(log, pairs).is_some());
        }
    }
}

/// Evenly spaced samples have one rate: where every two neighbours lie the
/// same positive time apart, the best and the worst rate are both one frame
/// over that time.
pub proof fn lemma_even_spacing_has_one_rate(log: Seq<FrameMetrics>, spacing: u64, pairs: int)
    requires
        spacing > 0,
        1 <= pairs <= log.len() - 1,
        forall|i: int| 0 <= i < pairs ==> #[trigger] spec_gap(log, i) == spacing,
    ensures
        spec_max_rate(log, pairs) == (Ratio {
            num: NANOS_PER_SECOND as u128,
            den: spacing as u128,
        }),
        spec_min_rate(log, pairs) == Some(
            Ratio { num: NANOS_PER_SECOND as u128, den: spacing as u128 },
        ),
    decreases pairs,
{
    let rate = Ratio { num: NANOS_PER_SECOND as u128, den: spacing as u128 };
    assert(spec_gap(log, pairs - 1) == spacing);
    assert(spec_pair_rate(log, pairs - 1) == rate);
    if pairs > 1 {
        lemma_even_spacing_has_one_rate(log, spacing, pairs - 1);
        assert(rate.le(rate));
    } else {
        assert(spec_max_rate(log, 0) == Ratio::spec_zero());
        assert(spec_min_rate(log, 0).is_none());
        assert(!rate.le(Ratio::spec_zero())) by (nonlinear_arith)
            requires
                rate.num == 1_000_000_000,
        ;
    }
}

/// An account depends on nothing but the state and the two readings it is
/// drawn up with. Two accounts of one state agree on the frame count, the
/// peaks, the averages over the log, the best and worst rate, the drops and
/// the log itself; drawn up at the same elapsed time they also agree on the
/// duration and the session's rate, and differ at most in their end.
pub proof fn lemma_report_repeats(
    state: MetricsState,
    elapsed_a: u64,
    end_a: i64,
    elapsed_b: u64,
    end_b: i64,
)
    ensures
        ({
            let a = state.report(elapsed_a, end_a);
            let b = state.report(elapsed_b, end_b);
            &&& a.start_time == b.start_time
            &&& a.total_frames == b.total_frames
            &&& a.peak_memory_mb == b.peak_memory_mb
            &&& a.peak_cpu_percent == b.peak_cpu_percent
            &&& a.average_memory_mb == b.average_memory_mb
            &&& a.average_cpu_percent == b.average_cpu_percent
            &&& a.max_fps == b.max_fps
            &&& a.min_fps == b.min_fps
            &&& a.dropped_frames == b.dropped_frames
            &&& a.frame_metrics == b.frame_metrics
            &&& elapsed_a == elapsed_b ==> a.average_fps == b.average_fps
                && a.total_duration_nanos == b.total_duration_nanos && a == (SessionView {
                end_time: a.end_time,
                ..b
            })
        }),
{
}

} // verus!
