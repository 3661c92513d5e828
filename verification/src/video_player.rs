//! The frame source: a decoder driven one step at a time.
//!
//! The player owns no decoder. It is told what the decoder did (an event)
//! and answers what to do next (an action), so that the order of reads,
//! sends, drains and the final flush is decided here and nowhere else. A
//! request for the next frame is a run of such steps that ends in a frame,
//! in the end of the stream, or in an error.

use vstd::prelude::*;
use crate::clock::logical_cores;
use crate::pacing::frame_interval;
use crate::pacing::spec_frame_interval;
use crate::pacing::wait_before_next;
use crate::pixel::layout_fits;
use crate::pixel::normalize;
use crate::pixel::packed_rows;
use crate::ratio::Ratio;
use crate::stream::frame_time;
use crate::stream::native_fps;
use crate::stream::spec_frame_time;
use crate::stream::spec_meta;
use crate::stream::spec_native_fps;
use crate::stream::stream_meta;
use crate::stream::StreamInfo;
use crate::stream::StreamMeta;

verus! {

/// One picture, ready to show: `width * height` pixels of three bytes,
/// rows packed without padding.
#[derive(Debug)]
pub struct VideoFrame {
    pub data: Vec<u8>,
    pub width: u32,
    pub height: u32,
    /// Nanoseconds since the start of the stream.
    pub timestamp: u64,
    /// Position in the run of frames, the first being 1.
    pub frame_number: u64,
}

/// A frame as contracts see it.
pub struct FrameView {
    pub data: Seq<u8>,
    pub width: u32,
    pub height: u32,
    pub timestamp: u64,
    pub frame_number: u64,
}

impl View for VideoFrame {
    type V = FrameView;

    open spec fn view(&self) -> FrameView {
        FrameView {
            data: self.data@,
            width: self.width,
            height: self.height,
            timestamp: self.timestamp,
            frame_number: self.frame_number,
        }
    }
}

impl FrameView {
    /// The buffer holds the picture and nothing else, and the frame has a
    /// number.
    pub open spec fn wf(self) -> bool {
        &&& self.data.len() == self.width * self.height * 3
        &&& self.frame_number >= 1
    }
}

/// Why a source could not be opened.
#[derive(Clone, Copy, Debug, PartialEq, Eq, Structural)]
pub enum OpenError {
    /// The file is missing or is no container.
    InputUnreadable,
    /// The container holds no video stream.
    NoVideoStream,
    /// No decoder could be built from the stream's parameters.
    DecoderInit,
    /// No converter to packed RGB could be built.
    ScalerInit,
}

/// Why a request for the next frame failed.
#[derive(Clone, Copy, Debug, PartialEq, Eq, Structural)]
pub enum DecodeError {
    /// The decoder refused a compressed unit or the end marker.
    Send,
    /// The decoder failed while handing out a picture.
    Receive,
    /// The converter to packed RGB failed.
    Convert,
    /// The converted buffer cannot hold the picture it claims to hold.
    Layout,
}

/// What an `OpenError` says.
pub open spec fn spec_open_message(error: OpenError) -> Seq<char> {
    match error {
        OpenError::InputUnreadable => "Failed to open video file"@,
        OpenError::NoVideoStream => "No video stream found"@,
        OpenError::DecoderInit => "Failed to create video decoder"@,
        OpenError::ScalerInit => "Failed to create scaler"@,
    }
}

/// What a `DecodeError` says.
pub open spec fn spec_decode_message(error: DecodeError) -> Seq<char> {
    match error {
        DecodeError::Send => "Failed to send data to the decoder"@,
        DecodeError::Receive => "Failed to receive a frame from the decoder"@,
        DecodeError::Convert => "Failed to convert the frame to RGB"@,
        DecodeError::Layout => "Converted frame is smaller than its picture"@,
    }
}

impl OpenError {
    /// The error in words.
    pub fn message(&self) -> (text: &'static str)
        ensures
            text@ == spec_open_message(*self),
    {
        match self {
            OpenError::InputUnreadable => "Failed to open video file",
            OpenError::NoVideoStream => "No video stream found",
            OpenError::DecoderInit => "Failed to create video decoder",
            OpenError::ScalerInit => "Failed to create scaler",
        }
    }
}

impl DecodeError {
    /// The error in words.
    pub fn message(&self) -> (text: &'static str)
        ensures
            text@ == spec_decode_message(*self),
    {
        match self {
            DecodeError::Send => "Failed to send data to the decoder",
            DecodeError::Receive => "Failed to receive a frame from the decoder",
            DecodeError::Convert => "Failed to convert the frame to RGB",
            DecodeError::Layout => "Converted frame is smaller than its picture",
        }
    }
}

/// How far opening a source got, as reported by whoever drives the
/// devices. Each step is attempted only where the one before succeeded.
#[derive(Clone, Copy, Debug)]
pub struct SourceProbe {
    pub input_opened: bool,
    /// The best video stream of the container.
    pub stream: Option<StreamInfo>,
    /// Width and height of the decoder built for that stream.
    pub decoder: Option<(u32, u32)>,
    pub scaler_ready: bool,
}

/// How the decoder is to be threaded.
#[derive(Clone, Copy, Debug, PartialEq, Eq, Structural)]
pub struct DecoderConfig {
    pub thread_count: i32,
    pub frame_threads: bool,
    pub slice_threads: bool,
}

/// Where the stream stands between two requests.
#[derive(Clone, Copy, Debug, PartialEq, Eq, Structural)]
pub enum Phase {
    /// Units are being read; the decoder holds no picture that is known of.
    Live,
    /// A unit was sent; the decoder may hold pictures.
    Draining,
    /// The end marker was sent; the decoder hands out what it still holds.
    Flushing,
    /// The decoder is empty for good.
    Finished,
}

/// What the player is waiting to be told.
#[derive(Clone, Copy, Debug, PartialEq, Eq, Structural)]
pub enum Waiting {
    Request,
    Packet,
    SendResult,
    EndMarkerResult,
    Picture,
    Conversion,
}

/// The playback cursor.
#[derive(Clone, Copy, Debug)]
pub struct DecodeState {
    pub phase: Phase,
    pub waiting: Waiting,
    /// Timestamp of the picture that is being converted.
    pub pts: Option<i64>,
    /// Frames handed out so far.
    pub current_frame: u64,
}

/// What the devices did.
#[derive(Debug)]
pub enum DecodeEvent {
    /// The caller asks for the next frame.
    Request,
    /// A compressed unit of the given stream was read.
    Packet { stream_index: usize },
    /// The container has no more units.
    EndOfInput,
    /// The decoder took the unit, or the end marker.
    Sent,
    SendFailed,
    /// The decoder handed out a picture.
    Decoded { pts: Option<i64> },
    /// The decoder has nothing to hand out now.
    Drained,
    ReceiveFailed,
    /// The picture was converted to RGB, rows `stride` bytes apart.
    Converted { data: Vec<u8>, stride: usize, width: u32, height: u32 },
    ConvertFailed,
}

/// What the devices are to do next.
#[derive(Debug)]
pub enum DecodeAction {
    ReadPacket,
    SendPacket,
    SendEndMarker,
    ReceivePicture,
    Convert,
    /// The request is answered: a frame, the end of the stream, or an error.
    Done(Result<Option<VideoFrame>, DecodeError>),
    /// No request is open.
    Idle,
}

/// An action as contracts see it.
pub enum ActionView {
    ReadPacket,
    SendPacket,
    SendEndMarker,
    ReceivePicture,
    Convert,
    Done(Result<Option<FrameView>, DecodeError>),
    Idle,
}

impl View for DecodeAction {
    type V = ActionView;

    open spec fn view(&self) -> ActionView {
        match *self {
            DecodeAction::ReadPacket => ActionView::ReadPacket,
            DecodeAction::SendPacket => ActionView::SendPacket,
            DecodeAction::SendEndMarker => ActionView::SendEndMarker,
            DecodeAction::ReceivePicture => ActionView::ReceivePicture,
            DecodeAction::Convert => ActionView::Convert,
            DecodeAction::Done(Ok(Some(frame))) => ActionView::Done(Ok(Some(frame@))),
            DecodeAction::Done(Ok(None)) => ActionView::Done(Ok(None)),
            DecodeAction::Done(Err(e)) => ActionView::Done(Err(e)),
            DecodeAction::Idle => ActionView::Idle,
        }
    }
}

impl ActionView {
    /// The action hands out a frame.
    pub open spec fn is_frame(self) -> bool {
        self matches ActionView::Done(Ok(Some(_)))
    }

    /// The action reports the end of the stream.
    pub open spec fn is_end_of_stream(self) -> bool {
        self matches ActionView::Done(Ok(None))
    }
}

/// The cursor before the first request.
pub open spec fn spec_initial_state() -> DecodeState {
    DecodeState { phase: Phase::Live, waiting: Waiting::Request, pts: None, current_frame: 0 }
}

/// The action that a state is waiting for the outcome of.
pub open spec fn spec_pending(state: DecodeState) -> ActionView {
    match state.waiting {
        Waiting::Request => ActionView::Idle,
        Waiting::Packet => ActionView::ReadPacket,
        Waiting::SendResult => ActionView::SendPacket,
        Waiting::EndMarkerResult => ActionView::SendEndMarker,
        Waiting::Picture => ActionView::ReceivePicture,
        Waiting::Conversion => ActionView::Convert,
    }
}

/// The frame made of a converted picture: the padding stripped, the time
/// derived from the decoder's timestamp, the number one more than the count
/// so far.
pub open spec fn spec_emitted_frame(
    meta: StreamMeta,
    state: DecodeState,
    data: Seq<u8>,
    stride: usize,
    width: u32,
    height: u32,
) -> FrameView {
    let number = (state.current_frame + 1) as u64;
    FrameView {
        data: packed_rows(data, stride as int, width, height as int),
        width,
        height,
        timestamp: spec_frame_time(meta, state.pts, number),
        frame_number: number,
    }
}

/// One step of the frame source: the state after `event` and the action it
/// asks for.
///
/// A request reads a unit while the stream is live, first empties the
/// decoder where it may hold pictures, and reports the end once the stream
/// is finished. Units of other streams are passed over. A unit that was sent
/// is followed by draining; when the decoder runs dry another unit is read.
/// When the container is exhausted the end marker is sent and the decoder
/// emptied; only when it runs dry after that is the stream finished. Each
/// picture is converted and packed, and counted when it is handed out. An
/// event that the state is not waiting for changes nothing and has the
/// pending action repeated.
pub open spec fn spec_step(meta: StreamMeta, state: DecodeState, event: DecodeEvent) -> (
    DecodeState,
    ActionView,
) {
    match (state.waiting, event) {
        (Waiting::Request, DecodeEvent::Request) => match state.phase {
            Phase::Live => (
                DecodeState { waiting: Waiting::Packet, ..state },
                ActionView::ReadPacket,
            ),
            Phase::Draining | Phase::Flushing => (
                DecodeState { waiting: Waiting::Picture, ..state },
                ActionView::ReceivePicture,
            ),
            Phase::Finished => (state, ActionView::Done(Ok(None))),
        },
        (Waiting::Packet, DecodeEvent::Packet { stream_index }) => if stream_index
            == meta.video_stream_index {
            (DecodeState { waiting: Waiting::SendResult, ..state }, ActionView::SendPacket)
        } else {
            (state, ActionView::ReadPacket)
        },
        (Waiting::Packet, DecodeEvent::EndOfInput) => (
            DecodeState { waiting: Waiting::EndMarkerResult, ..state },
            ActionView::SendEndMarker,
        ),
        (Waiting::SendResult, DecodeEvent::Sent) => (
            DecodeState { phase: Phase::Draining, waiting: Waiting::Picture, ..state },
            ActionView::ReceivePicture,
        ),
        (Waiting::EndMarkerResult, DecodeEvent::Sent) => (
            DecodeState { phase: Phase::Flushing, waiting: Waiting::Picture, ..state },
            ActionView::ReceivePicture,
        ),
        (Waiting::SendResult, DecodeEvent::SendFailed)
        | (Waiting::EndMarkerResult, DecodeEvent::SendFailed) => (
            DecodeState { waiting: Waiting::Request, ..state },
            ActionView::Done(Err(DecodeError::Send)),
        ),
        (Waiting::Picture, DecodeEvent::Decoded { pts }) => (
            DecodeState { waiting: Waiting::Conversion, pts, ..state },
            ActionView::Convert,
        ),
        (Waiting::Picture, DecodeEvent::Drained) => if state.phase == Phase::Flushing {
            (
                DecodeState { phase: Phase::Finished, waiting: Waiting::Request, ..state },
                ActionView::Done(Ok(None)),
            )
        } else {
            (
                DecodeState { phase: Phase::Live, waiting: Waiting::Packet, ..state },
                ActionView::ReadPacket,
            )
        },
        (Waiting::Picture, DecodeEvent::ReceiveFailed) => (
            DecodeState { waiting: Waiting::Request, ..state },
            ActionView::Done(Err(DecodeError::Receive)),
        ),
        (Waiting::Conversion, DecodeEvent::Converted { data, stride, width, height }) => {
            if layout_fits(data@.len() as int, stride as int, width, height) {
                (
                    DecodeState {
                        waiting: Waiting::Request,
                        pts: None,
                        current_frame: (state.current_frame + 1) as u64,
                        ..state
                    },
                    ActionView::Done(
                        Ok(Some(spec_emitted_frame(meta, state, data@, stride, width, height))),
                    ),
                )
            } else {
                (
                    DecodeState { waiting: Waiting::Request, pts: None, ..state },
                    ActionView::Done(Err(DecodeError::Layout)),
                )
            }
        },
        (Waiting::Conversion, DecodeEvent::ConvertFailed) => (
            DecodeState { waiting: Waiting::Request, pts: None, ..state },
            ActionView::Done(Err(DecodeError::Convert)),
        ),
        _ => (state, spec_pending(state)),
    }
}

/// The state after a run of events.
pub open spec fn spec_run(meta: StreamMeta, state: DecodeState, events: Seq<DecodeEvent>)
    -> DecodeState
    decreases events.len(),
{
    if events.len() == 0 {
        state
    } else {
        spec_step(meta, spec_run(meta, state, events.drop_last()), events.last()).0
    }
}

/// The number of frames handed out during a run of events.
pub open spec fn spec_frames_emitted(
    meta: StreamMeta,
    state: DecodeState,
    events: Seq<DecodeEvent>,
) -> nat
    decreases events.len(),
{
    if events.len() == 0 {
        0
    } else {
        let before = spec_run(meta, state, events.drop_last());
        spec_frames_emitted(meta, state, events.drop_last()) + if spec_step(
            meta,
            before,
            events.last(),
        ).1.is_frame() {
            1nat
        } else {
            0nat
        }
    }
}

/// What holds of every state that playback can be in: units are read and
/// sent only while the stream is live, pictures are received and converted
/// only after something was sent, and a timestamp is held only for the
/// picture that is being converted.
pub open spec fn spec_consistent(state: DecodeState) -> bool {
    &&& match state.waiting {
        Waiting::Request => true,
        Waiting::Packet | Waiting::SendResult | Waiting::EndMarkerResult => state.phase
            == Phase::Live,
        Waiting::Picture | Waiting::Conversion => state.phase == Phase::Draining || state.phase
            == Phase::Flushing,
    }
    &&& state.pts.is_some() ==> state.waiting == Waiting::Conversion
}

/// Playback starts in a consistent state and no event leads out of one.
pub proof fn lemma_run_stays_consistent(
    meta: StreamMeta,
    state: DecodeState,
    events: Seq<DecodeEvent>,
)
    requires
        spec_consistent(state),
    ensures
        spec_consistent(spec_initial_state()),
        spec_consistent(spec_run(meta, state, events)),
    decreases events.len(),
{
    if events.len() > 0 {
        lemma_run_stays_consistent(meta, state, events.drop_last());
    }
}

/// A step hands out a frame or leaves the count alone: the count goes up by
/// one exactly with a frame, and the frame carries the new count.
pub proof fn lemma_step_counts(meta: StreamMeta, state: DecodeState, event: DecodeEvent)
    requires
        state.current_frame < u64::MAX,
    ensures
        ({
            let (next, action) = spec_step(meta, state, event);
            &&& action.is_frame() ==> next.current_frame == state.current_frame + 1
            &&& !action.is_frame() ==> next.current_frame == state.current_frame
            &&& action matches ActionView::Done(Ok(Some(frame))) ==> frame.frame_number
                == next.current_frame
        }),
{
}

/// After any run of events the frame count has grown by the number of
/// frames handed out: it never falls and never skips.
pub proof fn lemma_count_follows_frames(
    meta: StreamMeta,
    state: DecodeState,
    events: Seq<DecodeEvent>,
)
    requires
        state.current_frame + events.len() <= u64::MAX,
    ensures
        spec_run(meta, state, events).current_frame == state.current_frame + spec_frames_emitted(
            meta,
            state,
            events,
        ),
        spec_frames_emitted(meta, state, events) <= events.len(),
    decreases events.len(),
{
    if events.len() > 0 {
        lemma_count_follows_frames(meta, state, events.drop_last());
        lemma_step_counts(meta, spec_run(meta, state, events.drop_last()), events.last());
    }
}

/// The end of the stream is final: once it was reported, no event changes
/// the state, and every further request is answered with the end again.
pub proof fn lemma_end_is_stable(meta: StreamMeta, state: DecodeState, events: Seq<DecodeEvent>)
    requires
        state.phase == Phase::Finished,
        state.waiting == Waiting::Request,
    ensures
        spec_run(meta, state, events) == state,
        spec_step(meta, spec_run(meta, state, events), DecodeEvent::Request).1
            == ActionView::Done(Ok(None)),
    decreases events.len(),
{
    if events.len() > 0 {
        lemma_end_is_stable(meta, state, events.drop_last());
    }
}

/// The end of the stream is never reported early: it is the answer only
/// where the stream was finished before, or where the decoder runs dry
/// after the end marker was sent, and either way the stream is finished
/// afterwards.
pub proof fn lemma_end_only_after_flush(meta: StreamMeta, state: DecodeState, event: DecodeEvent)
    requires
        spec_step(meta, state, event).1.is_end_of_stream(),
    ensures
        spec_step(meta, state, event).0.phase == Phase::Finished,
        spec_step(meta, state, event).0.waiting == Waiting::Request,
        (state.phase == Phase::Finished && state.waiting == Waiting::Request && event
            == DecodeEvent::Request) || (state.phase == Phase::Flushing && state.waiting
            == Waiting::Picture && event == DecodeEvent::Drained),
{
}

/// The first step of opening that did not succeed, if any.
pub open spec fn spec_open_error(probe: SourceProbe) -> Option<OpenError> {
    if !probe.input_opened {
        Some(OpenError::InputUnreadable)
    } else if probe.stream.is_none() {
        Some(OpenError::NoVideoStream)
    } else if probe.decoder.is_none() {
        Some(OpenError::DecoderInit)
    } else if !probe.scaler_ready {
        Some(OpenError::ScalerInit)
    } else {
        None
    }
}

/// The thread count for a machine with `cores` logical processors: one
/// thread each, as far as the decoder's counter goes.
pub open spec fn spec_thread_count(cores: usize) -> i32 {
    if cores > i32::MAX {
        i32::MAX
    } else {
        cores as i32
    }
}

/// The decoder's threading for a machine with `cores` logical processors:
/// one thread per processor, over frames and over slices.
pub fn decoder_config_for(cores: usize) -> (config: DecoderConfig)
    ensures
        config == (DecoderConfig {
            thread_count: spec_thread_count(cores),
            frame_threads: true,
            slice_threads: true,
        }),
{
    let thread_count: i32 = if cores > i32::MAX as usize {
        i32::MAX
    } else {
        cores as i32
    };
    DecoderConfig { thread_count, frame_threads: true, slice_threads: true }
}

/// The decoder's threading for this machine: `decoder_config_for` of the
/// number of processors found.
pub fn decoder_config() -> (config: DecoderConfig)
    ensures
        config.frame_threads,
        config.slice_threads,
        config.thread_count >= 0,
{
    decoder_config_for(logical_cores())
}

/// The frame source and its pacing.
#[derive(Debug)]
pub struct VideoPlayer {
    meta: StreamMeta,
    state: DecodeState,
    target_fps: u32,
    last_frame_time: Option<std::time::Instant>,
}

impl VideoPlayer {
    /// What is known of the stream.
    pub closed spec fn meta(&self) -> StreamMeta {
        self.meta
    }

    /// The playback cursor.
    pub closed spec fn decode_state(&self) -> DecodeState {
        self.state
    }

    /// The target rate in frames per second, zero for no cap.
    pub closed spec fn target(&self) -> u32 {
        self.target_fps
    }

    /// The instant at which the last frame was shown, as far as pacing was
    /// told.
    pub closed spec fn last_shown(&self) -> Option<std::time::Instant> {
        self.last_frame_time
    }

    /// Makes a player from the outcome of opening a source.
    ///
    /// Fails with the first step that did not succeed: the input, the
    /// search for a video stream, the decoder, the converter, in this order.
    /// Otherwise the player stands before the first frame, with the stream's
    /// metadata derived from the container's report.
    pub fn new(probe: &SourceProbe, target_fps: u32) -> (opened: Result<VideoPlayer, OpenError>)
        ensures
            opened.is_ok() <==> spec_open_error(*probe).is_none(),
            opened matches Err(e) ==> spec_open_error(*probe) == Some(e),
            opened matches Ok(player) ==> {
                &&& player.meta() == spec_meta(
                    probe.stream.unwrap(),
                    probe.decoder.unwrap().0,
                    probe.decoder.unwrap().1,
                )
                &&& player.decode_state() == spec_initial_state()
                &&& player.target() == target_fps
                &&& player.last_shown().is_none()
            },
    {
        if !probe.input_opened {
            return Err(OpenError::InputUnreadable);
        }
        let info = match probe.stream {
            Some(info) => info,
            None => {
                return Err(OpenError::NoVideoStream);
            },
        };
        let (width, height) = match probe.decoder {
            Some(size) => size,
            None => {
                return Err(OpenError::DecoderInit);
            },
        };
        if !probe.scaler_ready {
            return Err(OpenError::ScalerInit);
        }
        Ok(
            VideoPlayer {
                meta: stream_meta(&info, width, height),
                state: DecodeState {
                    phase: Phase::Live,
                    waiting: Waiting::Request,
                    pts: None,
                    current_frame: 0,
                },
                target_fps,
                last_frame_time: None,
            },
        )
    }

    /// Takes one step towards the next frame: told what the devices did, it
    /// says what they are to do next.
    ///
    /// A request is opened with `DecodeEvent::Request` and is answered by the
    /// first `DecodeAction::Done`: a frame, `Ok(None)` at the end of the
    /// stream, or an error, after which the next request may be opened. The
    /// state and the action are those of `spec_step`; the stream's metadata
    /// and the pacing are left alone.
    pub fn next_frame(&mut self, event: DecodeEvent) -> (action: DecodeAction)
        requires
            old(self).decode_state().current_frame < u64::MAX,
        ensures
            final(self).decode_state() == spec_step(
                old(self).meta(),
                old(self).decode_state(),
                event,
            ).0,
            action@ == spec_step(old(self).meta(), old(self).decode_state(), event).1,
            final(self).meta() == old(self).meta(),
            final(self).target() == old(self).target(),
            final(self).last_shown() == old(self).last_shown(),
            action matches DecodeAction::Done(Ok(Some(frame))) ==> frame@.wf(),
    {
        match self.state.waiting {
            Waiting::Request => match event {
                DecodeEvent::Request => match self.state.phase {
                    Phase::Live => {
                        self.state.waiting = Waiting::Packet;
                        DecodeAction::ReadPacket
                    },
                    Phase::Draining | Phase::Flushing => {
                        self.state.waiting = Waiting::Picture;
                        DecodeAction::ReceivePicture
                    },
                    Phase::Finished => DecodeAction::Done(Ok(None)),
                },
                _ => DecodeAction::Idle,
            },
            Waiting::Packet => match event {
                DecodeEvent::Packet { stream_index } => {
                    if stream_index == self.meta.video_stream_index {
                        self.state.waiting = Waiting::SendResult;
                        DecodeAction::SendPacket
                    } else {
                        DecodeAction::ReadPacket
                    }
                },
                DecodeEvent::EndOfInput => {
                    self.state.waiting = Waiting::EndMarkerResult;
                    DecodeAction::SendEndMarker
                },
                _ => DecodeAction::ReadPacket,
            },
            Waiting::SendResult => match event {
                DecodeEvent::Sent => {
                    self.state.phase = Phase::Draining;
                    self.state.waiting = Waiting::Picture;
                    DecodeAction::ReceivePicture
                },
                DecodeEvent::SendFailed => {
                    self.state.waiting = Waiting::Request;
                    DecodeAction::Done(Err(DecodeError::Send))
                },
                _ => DecodeAction::SendPacket,
            },
            Waiting::EndMarkerResult => match event {
                DecodeEvent::Sent => {
                    self.state.phase = Phase::Flushing;
                    self.state.waiting = Waiting::Picture;
                    DecodeAction::ReceivePicture
                },
                DecodeEvent::SendFailed => {
                    self.state.waiting = Waiting::Request;
                    DecodeAction::Done(Err(DecodeError::Send))
                },
                _ => DecodeAction::SendEndMarker,
            },
            Waiting::Picture => match event {
                DecodeEvent::Decoded { pts } => {
                    self.state.waiting = Waiting::Conversion;
                    self.state.pts = pts;
                    DecodeAction::Convert
                },
                DecodeEvent::Drained => match self.state.phase {
                    Phase::Flushing => {
                        self.state.phase = Phase::Finished;
                        self.state.waiting = Waiting::Request;
                        DecodeAction::Done(Ok(None))
                    },
                    _ => {
                        self.state.phase = Phase::Live;
                        self.state.waiting = Waiting::Packet;
                        DecodeAction::ReadPacket
                    },
                },
                DecodeEvent::ReceiveFailed => {
                    self.state.waiting = Waiting::Request;
                    DecodeAction::Done(Err(DecodeError::Receive))
                },
                _ => DecodeAction::ReceivePicture,
            },
            Waiting::Conversion => match event {
                DecodeEvent::Converted { data, stride, width, height } => {
                    let pts = self.state.pts;
                    self.state.waiting = Waiting::Request;
                    self.state.pts = None;
                    match normalize(data.as_slice(), stride, width, height) {
                        Some(packed) => {
                            let number: u64 = self.state.current_frame + 1;
                            self.state.current_frame = number;
                            DecodeAction::Done(
                                Ok(
                                    Some(
                                        VideoFrame {
                                            data: packed,
                                            width,
                                            height,
                                            timestamp: frame_time(&self.meta, pts, number),
                                            frame_number: number,
                                        },
                                    ),
                                ),
                            )
                        },
                        None => DecodeAction::Done(Err(DecodeError::Layout)),
                    }
                },
                DecodeEvent::ConvertFailed => {
                    self.state.waiting = Waiting::Request;
                    self.state.pts = None;
                    DecodeAction::Done(Err(DecodeError::Convert))
                },
                _ => DecodeAction::Convert,
            },
        }
    }

    /// Whether the stream has been played to its end.
    pub fn is_finished(&self) -> (finished: bool)
        ensures
            finished == (self.decode_state().phase == Phase::Finished),
    {
        match self.state.phase {
            Phase::Finished => true,
            _ => false,
        }
    }

    /// The number of frames handed out so far.
    pub fn get_current_frame(&self) -> (count: u64)
        ensures
            count == self.decode_state().current_frame,
    {
        self.state.current_frame
    }

    /// The container's estimate of the number of frames, zero where it has
    /// none.
    pub fn get_total_frames(&self) -> (count: u64)
        ensures
            count == self.meta().total_frames,
    {
        self.meta.total_frames
    }

    /// The length of the stream in nanoseconds.
    pub fn get_duration(&self) -> (nanos: u64)
        ensures
            nanos == self.meta().duration,
    {
        self.meta.duration
    }

    /// The part of the stream that has been played: frames handed out over
    /// frames expected, zero where none are expected. It exceeds one where
    /// the container under-reports.
    pub fn get_progress(&self) -> (progress: Ratio)
        ensures
            progress.wf(),
            self.meta().total_frames == 0 ==> progress == Ratio::spec_zero(),
            self.meta().total_frames > 0 ==> progress == (Ratio {
                num: self.decode_state().current_frame as u128,
                den: self.meta().total_frames as u128,
            }),
    {
        if self.meta.total_frames == 0 {
            Ratio::zero()
        } else {
            Ratio::new(self.state.current_frame as u128, self.meta.total_frames as u128)
        }
    }

    pub fn get_width(&self) -> (width: u32)
        ensures
            width == self.meta().width,
    {
        self.meta.width
    }

    pub fn get_height(&self) -> (height: u32)
        ensures
            height == self.meta().height,
    {
        self.meta.height
    }

    /// The stream's own rate in frames per second.
    pub fn get_native_fps(&self) -> (rate: Ratio)
        ensures
            rate == spec_native_fps(self.meta()),
            rate.wf(),
    {
        native_fps(&self.meta)
    }

    /// The target rate in frames per second, zero for no cap.
    pub fn get_target_fps(&self) -> (fps: u32)
        ensures
            fps == self.target(),
    {
        self.target_fps
    }

    /// Changes the target rate. The next pacing decision goes by the new
    /// rate; the instant of the last frame stays as it is.
    pub fn set_target_fps(&mut self, target_fps: u32)
        ensures
            final(self).target() == target_fps,
            final(self).meta() == old(self).meta(),
            final(self).decode_state() == old(self).decode_state(),
            final(self).last_shown() == old(self).last_shown(),
    {
        self.target_fps = target_fps;
    }

    /// Blocking mode: the nanoseconds that the caller is to sleep before it
    /// goes on, so that frames follow each other at the target rate.
    ///
    /// Zero without a cap and before `frame_shown` was first called; never
    /// more than one interval. The player is not changed: after the sleep
    /// the caller reports with `frame_shown`, which replaces the instant
    /// that this wait was measured from.
    pub fn maintain_target_fps(&self) -> (wait: u64)
        ensures
            self.target() == 0 ==> wait == 0,
            self.last_shown().is_none() ==> wait == 0,
            spec_frame_interval(self.target()) matches Some(interval) ==> wait <= interval,
    {
        wait_before_next(self.last_frame_time, self.target_fps)
    }

    /// Records that a frame was shown at `now`. Under a cap `now` takes the
    /// place of whatever instant was held before, so that the next wait is
    /// measured from it. Without a cap nothing is recorded.
    pub fn frame_shown_at(&mut self, now: std::time::Instant)
        ensures
            final(self).target() == old(self).target(),
            final(self).meta() == old(self).meta(),
            final(self).decode_state() == old(self).decode_state(),
            old(self).target() == 0 ==> final(self).last_shown() == old(self).last_shown(),
            old(self).target() > 0 ==> final(self).last_shown() == Some(now),
    {
        if frame_interval(self.target_fps).is_some() {
            self.last_frame_time = Some(now);
        }
    }

    /// Records that a frame is shown now: `frame_shown_at` of the instant
    /// that the clock gives. Called after the sleep that
    /// `maintain_target_fps` asked for, it makes the next wait run from the
    /// end of that sleep.
    pub fn frame_shown(&mut self)
        ensures
            final(self).target() == old(self).target(),
            final(self).meta() == old(self).meta(),
            final(self).decode_state() == old(self).decode_state(),
            old(self).target() == 0 ==> final(self).last_shown() == old(self).last_shown(),
            old(self).target() > 0 ==> final(self).last_shown().is_some(),
    {
        self.frame_shown_at(std::time::Instant::now());
    }

    /// Seeking is not offered: the call succeeds and the player stays where
    /// it is.
    pub fn seek_to_frame(&mut self, frame_number: u64) -> (sought: Result<(), DecodeError>)
        ensures
            sought.is_ok(),
            final(self).meta() == old(self).meta(),
            final(self).decode_state() == old(self).decode_state(),
            final(self).target() == old(self).target(),
            final(self).last_shown() == old(self).last_shown(),
    {
        Ok(())
    }
}

} // verus!
