//! The thread that decodes the video stream.
use crate::context::layout::PixelFormat;
use crate::context::pipeline_cache::UNSPECIFIED;
use crate::decode::frame_queue::FrameQueue;
use crate::decode::packet_queue::{
    accept_packet, law_queue_stays_consistent, packet_step, Packet, PacketQueue, PacketStep,
};
use crate::decode::selector::{FrameSelector, FrameStep, FrameTime, Received};
use crate::decode::{DecoderState, DecoderStateView, PlayState, StreamView};
use crate::error::Error;
use crate::rational::Rational;
use vstd::prelude::*;

verus! {

/// What is known of a video stream.
#[derive(Debug, Clone, Copy, PartialEq, Eq, Structural)]
pub struct VideoMetadata {
    pub index: usize,
    pub time_base: Rational,
    pub framerate: Rational,
    /// The colour space, as FFmpeg numbers them.
    pub color_space: i32,
    pub width: u32,
    pub height: u32,
}

impl Default for VideoMetadata {
    /// The metadata of a stream that is not there.
    fn default() -> (metadata: VideoMetadata)
        ensures
            metadata == (VideoMetadata {
                index: usize::MAX,
                time_base: Rational { num: 0, den: 1 },
                framerate: Rational { num: 0, den: 1 },
                color_space: UNSPECIFIED,
                width: 0,
                height: 0,
            }),
    {
        VideoMetadata {
            index: usize::MAX,
            time_base: Rational::new(0, 1),
            framerate: Rational::new(0, 1),
            color_space: UNSPECIFIED,
            width: 0,
            height: 0,
        }
    }
}

/// The video stream of an input.
pub struct VideoStream {
    pub metadata: VideoMetadata,
    pub packets: PacketQueue,
    pub frames: FrameQueue,
}

impl View for VideoStream {
    type V = StreamView<VideoMetadata>;

    open spec fn view(&self) -> StreamView<VideoMetadata> {
        StreamView { metadata: self.metadata, packets: self.packets@, frames: self.frames@ }
    }
}

impl VideoStream {
    /// The queues are well formed, and the packets are those of the stream.
    pub open spec fn wf(&self) -> bool {
        &&& self.packets.wf()
        &&& self.frames.wf()
        &&& self.packets@.stream == self.metadata.index
    }
}

/// The device type of a decoder without a hardware device.
pub const NO_DEVICE: i32 = 0;

/// The bit of a configuration's methods that says that it works on a hardware device context.
pub const USES_DEVICE_CONTEXT: u32 = 1;

/// As many configurations of a codec are looked at.
pub const MAX_CONFIGS: usize = 16;

/// A way in which a codec can use hardware.
#[derive(Debug, Clone, Copy, PartialEq, Eq, Structural)]
pub struct HwConfig {
    /// How the hardware is set up, as a set of bits.
    pub methods: u32,
    /// The type of the device.
    pub device_type: i32,
    /// The format of the frames that come out.
    pub pix_fmt: PixelFormat,
}

/// The configuration decodes on a context of this type of device.
pub open spec fn fits_device(config: HwConfig, device_type: i32) -> bool {
    config.methods & USES_DEVICE_CONTEXT != 0 && config.device_type == device_type
}

/// The configuration at `i` is the first one that decodes on this type of device.
pub open spec fn is_first_fit(configs: Seq<HwConfig>, device_type: i32, i: int) -> bool {
    &&& 0 <= i < configs.len()
    &&& i < MAX_CONFIGS
    &&& fits_device(configs[i], device_type)
    &&& forall|j: int| 0 <= j < i ==> !fits_device(#[trigger] configs[j], device_type)
}

/// None of the configurations that are looked at decodes on this type of device.
pub open spec fn none_fits(configs: Seq<HwConfig>, device_type: i32) -> bool {
    forall|j: int|
        0 <= j < configs.len() && j < MAX_CONFIGS ==> !fits_device(
            #[trigger] configs[j],
            device_type,
        )
}

/// The decoder of a video stream.
pub struct Decoder {
    pub metadata: VideoMetadata,
    pub device_type: i32,
    /// The format that the hardware gives, where there is a device.
    pub hw_pixel_format: Option<PixelFormat>,
}

/// The stream to decode, where the input has one and there is a decoder for its codec.
pub fn find_stream(index: Option<usize>, codec: &'static str, has_decoder: bool) -> (result: Result<
    usize,
    Error,
>)
    ensures
        result == (match index {
            None => Err::<usize, Error>(Error::InvalidStream),
            Some(found) => if has_decoder {
                Ok(found)
            } else {
                Err(Error::MissingCodec(codec))
            },
        }),
{
    match index {
        None => Err(Error::InvalidStream),
        Some(found) => if has_decoder {
            Ok(found)
        } else {
            Err(Error::MissingCodec(codec))
        },
    }
}

/// The format that the hardware gives. `configs` are the configurations that the codec has;
/// so many of them are looked at. A codec whose configurations come to an end without one for the
/// device cannot be decoded on it.
pub fn select_hw_format(configs: &Vec<HwConfig>, device_type: i32, codec: &'static str) -> (result:
    Result<PixelFormat, Error>)
    ensures
        match result {
            Ok(format) => {
                ||| exists|i: int| #[trigger]
                    is_first_fit(configs@, device_type, i) && format == configs@[i].pix_fmt
                ||| none_fits(configs@, device_type) && configs@.len() >= MAX_CONFIGS
                    && format == PixelFormat::Absent
            },
            Err(error) => {
                &&& none_fits(configs@, device_type)
                &&& configs@.len() < MAX_CONFIGS
                &&& error == Error::MissingCodec(codec)
            },
        },
{
    let mut i: usize = 0;
    while i < MAX_CONFIGS
        invariant
            i <= MAX_CONFIGS,
            i <= configs@.len(),
            forall|j: int| 0 <= j < i ==> !fits_device(#[trigger] configs@[j], device_type),
        decreases MAX_CONFIGS - i,
    {
        if i == configs.len() {
            return Err(Error::MissingCodec(codec));
        }
        let config = configs[i];
        if (config.methods & USES_DEVICE_CONTEXT) != 0 && config.device_type == device_type {
            assert(is_first_fit(configs@, device_type, i as int));
            return Ok(config.pix_fmt);
        }
        i = i + 1;
    }
    Ok(PixelFormat::Absent)
}

/// What is decoded to.
#[derive(Debug, Clone, Copy, PartialEq, Eq, Structural)]
pub struct HwChoice {
    pub format: PixelFormat,
    /// The hardware does not support the stream.
    pub unsupported: bool,
}

/// The format to decode to, out of those that are offered up to the first absent one: that of
/// the hardware. Where it is not offered, none is chosen, and the hardware does not support the
/// stream.
pub fn get_hw_format(offered: &Vec<PixelFormat>, hw_pixel_format: PixelFormat) -> (choice: HwChoice)
    ensures
        choice == (if is_offered(offered@, hw_pixel_format) {
            HwChoice { format: hw_pixel_format, unsupported: false }
        } else {
            HwChoice { format: PixelFormat::Absent, unsupported: true }
        }),
{
    let mut i: usize = 0;
    while i < offered.len() && offered[i] != PixelFormat::Absent
        invariant
            i <= offered@.len(),
            forall|j: int| 0 <= j < i ==> #[trigger] offered@[j] != PixelFormat::Absent,
            forall|j: int| 0 <= j < i ==> #[trigger] offered@[j] != hw_pixel_format,
        decreases offered@.len() - i,
    {
        if offered[i] == hw_pixel_format {
            return HwChoice { format: hw_pixel_format, unsupported: false };
        }
        i = i + 1;
    }
    HwChoice { format: PixelFormat::Absent, unsupported: true }
}

/// The format is offered: it stands in the list with no absent one up to it.
pub open spec fn is_offered(offered: Seq<PixelFormat>, format: PixelFormat) -> bool {
    exists|i: int|
        #![trigger offered[i]]
        0 <= i < offered.len() && offered[i] == format && forall|j: int|
            0 <= j <= i ==> #[trigger] offered[j] != PixelFormat::Absent
}

impl Decoder {
    /// The decoder of the stream that was found, on a device of this type. `opened` says
    /// whether a context for that device could be made, which is asked only where there is one.
    pub fn new(
        metadata: VideoMetadata,
        device_type: i32,
        configs: &Vec<HwConfig>,
        codec: &'static str,
        opened: bool,
    ) -> (result: Result<Decoder, Error>)
        ensures
            match result {
                Ok(decoder) => {
                    &&& decoder.metadata == metadata
                    &&& decoder.device_type == device_type
                    &&& device_type == NO_DEVICE ==> decoder.hw_pixel_format is None
                    &&& device_type != NO_DEVICE ==> {
                        &&& opened
                        &&& decoder.hw_pixel_format matches Some(format)
                        &&& {
                            ||| exists|i: int| #[trigger]
                                is_first_fit(configs@, device_type, i) && format
                                    == configs@[i].pix_fmt
                            ||| none_fits(configs@, device_type) && configs@.len() >= MAX_CONFIGS
                                && format == PixelFormat::Absent
                        }
                    }
                },
                Err(error) => {
                    &&& device_type != NO_DEVICE
                    &&& if none_fits(configs@, device_type) && configs@.len() < MAX_CONFIGS {
                        error == Error::MissingCodec(codec)
                    } else {
                        !opened && error == Error::HardwareContext
                    }
                },
            },
    {
        if device_type == NO_DEVICE {
            return Ok(Decoder { metadata, device_type, hw_pixel_format: None });
        }
        match select_hw_format(configs, device_type, codec) {
            Err(error) => Err(error),
            Ok(format) => if opened {
                Ok(Decoder { metadata, device_type, hw_pixel_format: Some(format) })
            } else {
                Err(Error::HardwareContext)
            },
        }
    }

    /// Whether to decode in software from here on: the hardware turned out not to support the
    /// stream.
    pub fn falls_back(&self, unsupported: bool) -> (falls_back: bool)
        ensures
            falls_back == (self.device_type != NO_DEVICE && unsupported),
    {
        self.device_type != NO_DEVICE && unsupported
    }
}

/// A request to the thread.
#[derive(Debug, Clone, Copy, PartialEq, Eq, Structural)]
pub enum Message {
    /// Show nothing before the timestamp, in microseconds.
    SkipToTimestamp(i64),
}

/// What a decoding thread does before it asks its decoder for a frame.
#[derive(Debug, Clone, Copy, PartialEq, Eq, Structural)]
pub enum PollStep {
    /// End.
    End,
    /// Sleep 10 milliseconds, then look again.
    Wait,
    /// Ask.
    Receive,
}

/// Where in its round a decoding thread is.
#[derive(Debug, Clone, Copy, PartialEq, Eq, Structural)]
pub enum Phase {
    /// A round begins.
    Round,
    /// The decoder gives frames.
    Frames,
    /// A frame is to be queued.
    Present,
    /// The decoder needs a packet.
    Packets,
    /// The thread is over.
    Ended,
}

/// What happened since the last step of the thread.
#[derive(Debug, Clone, Copy, PartialEq, Eq, Structural)]
pub enum VideoEvent {
    /// The last action was done.
    Resumed,
    /// The decoder answered. `behind_master` says that the time of a frame is before that of
    /// the master clock, though not by too much to follow it; `clock_serial` is the generation
    /// that the clock of the stream was set from.
    Answered { received: Received, behind_master: bool, clock_serial: u32 },
    /// The frame to queue has this time and this best known timestamp.
    Ready { pts: Option<i64>, timestamp: i64 },
}

/// What the thread does next.
#[derive(Debug, Clone, Copy, PartialEq, Eq, Structural)]
pub enum VideoAction {
    /// End.
    End,
    /// Decode in software from here on where the hardware does not support the stream, and take
    /// note of the requests that came.
    BeginRound,
    /// Sleep for a while. Where a frame is to be queued, it still is.
    Sleep,
    /// Ask the decoder for a frame.
    Receive,
    /// Keep the frame as the held one.
    Hold,
    /// Drop the frame, where there is one.
    Drop,
    /// Get the frame ready to be queued.
    Show,
    /// Get the held frame ready to be queued.
    ShowHeld,
    /// Put the frame in this slot.
    Queue(u64),
    /// Flush the decoder.
    Flush,
    /// Go on.
    Proceed,
    /// Give the packet to the decoder, which is flushed first where `flush` says so.
    Decode { packet: Packet, flush: bool },
    /// Drop the packet. The decoder is flushed where `flush` says so.
    Discard { packet: Packet, flush: bool },
}

/// The decisions of the thread that decodes the video stream.
#[derive(Debug, Clone, Copy, PartialEq, Eq, Structural)]
pub struct VideoThread {
    pub phase: Phase,
    /// The generation of the last packet.
    pub packet_serial: u32,
    pub selector: FrameSelector,
}

/// A frame that the master clock is ahead of is too late, where the clock of the stream follows
/// the same packets and more of them are there.
pub open spec fn is_late(
    thread: VideoThread,
    packets: nat,
    behind_master: bool,
    clock_serial: u32,
) -> bool {
    behind_master && thread.packet_serial == clock_serial && packets > 0
}

/// The state after a frame of this time was queued. Where an accurate seek in a paused player
/// comes to its end, the frame is shown.
pub open spec fn after_present(
    state: DecoderStateView,
    thread: VideoThread,
    pts: Option<i64>,
    timestamp: i64,
) -> DecoderStateView {
    DecoderStateView {
        current_pts: match pts {
            Some(pts) => pts,
            None => state.current_pts,
        },
        play_state: if pts is Some && thread.selector.skip_to is Some && state.play_state is Paused {
            PlayState::Step
        } else {
            state.play_state
        },
        video: StreamView {
            frames: state.video.frames.sent(timestamp, thread.packet_serial),
            ..state.video
        },
        ..state
    }
}

/// What a thread does before it asks for a frame.
pub open spec fn video_poll(state: DecoderStateView) -> PollStep {
    if !state.alive {
        PollStep::End
    } else if state.video.frames.free.len() == 0 {
        PollStep::Wait
    } else {
        PollStep::Receive
    }
}

/// A step of the thread while the decoder gives frames.
pub open spec fn answered(
    thread: VideoThread,
    state: DecoderStateView,
    received: Received,
    behind_master: bool,
    clock_serial: u32,
) -> (VideoAction, VideoThread, DecoderStateView) {
    let late = is_late(thread, state.video.packets.packets.len(), behind_master, clock_serial);
    let (step, selector) = thread.selector.selected(received, late);
    let (action, phase) = match step {
        FrameStep::Hold => (VideoAction::Hold, Phase::Frames),
        FrameStep::Drop => (VideoAction::Drop, Phase::Frames),
        FrameStep::Ignore => (VideoAction::Drop, Phase::Frames),
        FrameStep::Show(_) => (VideoAction::Show, Phase::Present),
        FrameStep::ShowHeld(_) => (VideoAction::ShowHeld, Phase::Present),
        FrameStep::FlushAndFetch => (VideoAction::Flush, Phase::Packets),
        FrameStep::Fetch => (VideoAction::Proceed, Phase::Packets),
    };
    (action, VideoThread { phase, selector, ..thread }, state)
}

/// A step of the thread while the decoder needs a packet.
pub open spec fn fetched(thread: VideoThread, state: DecoderStateView) -> (
    VideoAction,
    VideoThread,
    DecoderStateView,
) {
    if !state.alive {
        (VideoAction::End, VideoThread { phase: Phase::Ended, ..thread }, state)
    } else if state.video.packets.packets.len() == 0 {
        (VideoAction::Sleep, thread, state)
    } else {
        let packet = state.video.packets.packets.first();
        let step = packet_step(thread.packet_serial, packet, state.video.packets.serial);
        let taken = DecoderStateView {
            video: StreamView { packets: state.video.packets.popped(), ..state.video },
            ..state
        };
        if step.decode {
            (
                VideoAction::Decode { packet, flush: step.flush },
                VideoThread { phase: Phase::Round, packet_serial: packet.serial, ..thread },
                taken,
            )
        } else {
            (
                VideoAction::Discard { packet, flush: step.flush },
                VideoThread { packet_serial: packet.serial, ..thread },
                taken,
            )
        }
    }
}

/// A step of the thread: what it does next, and the thread and the state after it.
pub open spec fn stepped(thread: VideoThread, state: DecoderStateView, event: VideoEvent) -> (
    VideoAction,
    VideoThread,
    DecoderStateView,
) {
    match thread.phase {
        Phase::Round => if state.alive {
            (
                VideoAction::BeginRound,
                VideoThread {
                    phase: Phase::Frames,
                    selector: FrameSelector { held: None, ..thread.selector },
                    ..thread
                },
                state,
            )
        } else {
            (VideoAction::End, VideoThread { phase: Phase::Ended, ..thread }, state)
        },
        Phase::Frames => match event {
            VideoEvent::Answered { received, behind_master, clock_serial } => answered(
                thread,
                state,
                received,
                behind_master,
                clock_serial,
            ),
            _ => match video_poll(state) {
                PollStep::End => (
                    VideoAction::End,
                    VideoThread { phase: Phase::Ended, ..thread },
                    state,
                ),
                PollStep::Wait => (VideoAction::Sleep, thread, state),
                PollStep::Receive => (VideoAction::Receive, thread, state),
            },
        },
        Phase::Present => match event {
            VideoEvent::Ready { pts, timestamp } => if state.video.frames.free.len() == 0 {
                (VideoAction::Sleep, thread, state)
            } else {
                (
                    VideoAction::Queue(state.video.frames.free.first().slot),
                    VideoThread {
                        phase: Phase::Frames,
                        selector: FrameSelector { skip_to: None, held: None },
                        ..thread
                    },
                    after_present(state, thread, pts, timestamp),
                )
            },
            _ => (VideoAction::Proceed, thread, state),
        },
        Phase::Packets => fetched(thread, state),
        Phase::Ended => (VideoAction::End, thread, state),
    }
}

impl VideoThread {
    /// The decisions of a thread that has not begun.
    pub fn new() -> (thread: VideoThread)
        ensures
            thread == (VideoThread {
                phase: Phase::Round,
                packet_serial: 0,
                selector: FrameSelector { skip_to: None, held: None },
            }),
    {
        VideoThread { phase: Phase::Round, packet_serial: 0, selector: FrameSelector::new() }
    }

    /// What the thread does next.
    pub fn step(&mut self, state: &mut DecoderState, event: VideoEvent) -> (action: VideoAction)
        requires
            old(state).wf(),
        ensures
            final(state).wf(),
            (action, *final(self), final(state)@) == stepped(*old(self), old(state)@, event),
    {
        match self.phase {
            Phase::Round => if state.alive {
                self.begin_round();
                self.phase = Phase::Frames;
                VideoAction::BeginRound
            } else {
                self.phase = Phase::Ended;
                VideoAction::End
            },
            Phase::Frames => match event {
                VideoEvent::Answered { received, behind_master, clock_serial } => {
                    match self.received(state, received, behind_master, clock_serial) {
                        FrameStep::Hold => VideoAction::Hold,
                        FrameStep::Drop => VideoAction::Drop,
                        FrameStep::Ignore => VideoAction::Drop,
                        FrameStep::Show(_) => {
                            self.phase = Phase::Present;
                            VideoAction::Show
                        },
                        FrameStep::ShowHeld(_) => {
                            self.phase = Phase::Present;
                            VideoAction::ShowHeld
                        },
                        FrameStep::FlushAndFetch => {
                            self.phase = Phase::Packets;
                            VideoAction::Flush
                        },
                        FrameStep::Fetch => {
                            self.phase = Phase::Packets;
                            VideoAction::Proceed
                        },
                    }
                },
                _ => match self.poll(state) {
                    PollStep::End => {
                        self.phase = Phase::Ended;
                        VideoAction::End
                    },
                    PollStep::Wait => VideoAction::Sleep,
                    PollStep::Receive => VideoAction::Receive,
                },
            },
            Phase::Present => match event {
                VideoEvent::Ready { pts, timestamp } => match self.present(state, pts, timestamp) {
                    Some(slot) => {
                        self.phase = Phase::Frames;
                        VideoAction::Queue(slot)
                    },
                    None => VideoAction::Sleep,
                },
                _ => VideoAction::Proceed,
            },
            Phase::Packets => if !state.alive {
                self.phase = Phase::Ended;
                VideoAction::End
            } else {
                match state.video_stream.packets.try_receive() {
                    None => VideoAction::Sleep,
                    Some(packet) => {
                        let current: u32 = state.video_stream.packets.serial();
                        let step = self.packet_received(packet, current);
                        if step.decode {
                            self.phase = Phase::Round;
                            VideoAction::Decode { packet, flush: step.flush }
                        } else {
                            VideoAction::Discard { packet, flush: step.flush }
                        }
                    },
                }
            },
            Phase::Ended => VideoAction::End,
        }
    }

    /// Takes note of a request.
    pub fn message(&mut self, message: Message)
        ensures
            *final(self) == (VideoThread {
                selector: FrameSelector {
                    skip_to: match message {
                        Message::SkipToTimestamp(ts) => Some(ts),
                    },
                    ..old(self).selector
                },
                ..*old(self)
            }),
    {
        match message {
            Message::SkipToTimestamp(ts) => {
                self.selector.skip_to = Some(ts);
            },
        }
    }

    /// Begins a round: what is held from the last one is dropped.
    pub fn begin_round(&mut self)
        ensures
            *final(self) == (VideoThread {
                selector: FrameSelector { held: None, ..old(self).selector },
                ..*old(self)
            }),
    {
        self.selector.held = None;
    }

    /// What to do before the decoder is asked for a frame.
    pub fn poll(&self, state: &DecoderState) -> (step: PollStep)
        requires
            state.wf(),
        ensures
            step == video_poll(state@),
    {
        if !state.alive {
            PollStep::End
        } else if !state.video_stream.frames.has_free() {
            PollStep::Wait
        } else {
            PollStep::Receive
        }
    }

    /// What to do with the answer of the decoder. `behind_master` says that the frame's time is
    /// before that of the master clock, though not by too much to follow it; `clock_serial` is
    /// the generation that the clock of the stream was set from.
    pub fn received(
        &mut self,
        state: &DecoderState,
        received: Received,
        behind_master: bool,
        clock_serial: u32,
    ) -> (step: FrameStep)
        requires
            state.wf(),
        ensures
            *final(self) == (VideoThread { selector: final(self).selector, ..*old(self) }),
            (step, final(self).selector) == old(self).selector.selected(
                received,
                is_late(*old(self), state@.video.packets.packets.len(), behind_master, clock_serial),
            ),
    {
        let late = behind_master && self.packet_serial == clock_serial
            && !state.video_stream.packets.is_empty();
        self.selector.select(received, late)
    }

    /// Queues a frame that is to be shown, and returns the slot to put it in. Without a free
    /// slot nothing changes.
    pub fn present(&mut self, state: &mut DecoderState, pts: Option<i64>, timestamp: i64) -> (slot:
        Option<u64>)
        requires
            old(state).wf(),
        ensures
            final(state).wf(),
            match slot {
                Some(slot) => {
                    &&& old(state)@.video.frames.free.len() > 0
                    &&& slot == old(state)@.video.frames.free.first().slot
                    &&& final(state)@ == after_present(old(state)@, *old(self), pts, timestamp)
                    &&& *final(self) == (VideoThread {
                        selector: FrameSelector { skip_to: None, held: None },
                        ..*old(self)
                    })
                },
                None => {
                    &&& old(state)@.video.frames.free.len() == 0
                    &&& final(state)@ == old(state)@
                    &&& *final(self) == *old(self)
                },
            },
    {
        match state.video_stream.frames.send(timestamp, self.packet_serial) {
            None => None,
            Some(slot) => {
                self.selector.held = None;
                if let Some(pts) = pts {
                    state.current_pts = pts;
                    if self.selector.skip_to.is_some() && state.play_state() == PlayState::Paused {
                        state.play_state = PlayState::Step;
                    }
                }
                self.selector.skip_to = None;
                Some(slot)
            },
        }
    }

    /// What to do with a packet, while the queue is at the generation `queue_serial`.
    pub fn packet_received(&mut self, packet: Packet, queue_serial: u32) -> (step: PacketStep)
        ensures
            step == packet_step(old(self).packet_serial, packet, queue_serial),
            *final(self) == (VideoThread { packet_serial: packet.serial, ..*old(self) }),
    {
        accept_packet(&mut self.packet_serial, packet, queue_serial)
    }
}

/// A paused player shows the frame that an accurate seek leads to: the first one that reaches
/// the timestamp is queued and the player steps, and nothing before it is queued.
pub proof fn law_accurate_seek_steps_to_its_frame(
    state: DecoderStateView,
    thread: VideoThread,
    time: FrameTime,
    target: i64,
    timestamp: i64,
)
    requires
        state.play_state is Paused,
        thread.selector.skip_to == Some(target),
    ensures
        time.micros < target ==> thread.selector.selected(
            Received::Frame(Some(time)),
            false,
        ).0 is Hold,
        time.micros >= target ==> {
            &&& thread.selector.selected(Received::Frame(Some(time)), false).0 == FrameStep::Show(
                Some(time.pts),
            )
            &&& after_present(state, thread, Some(time.pts), timestamp).play_state is Step
            &&& after_present(state, thread, Some(time.pts), timestamp).current_pts == time.pts
        },
{
}

/// When the player ends, so does the thread, wherever in its round it is, unless it has a frame
/// to queue first.
pub proof fn law_thread_ends_with_the_player(thread: VideoThread, state: DecoderStateView)
    requires
        !state.alive,
        !(thread.phase is Present),
    ensures
        stepped(thread, state, VideoEvent::Resumed).0 is End,
        stepped(thread, state, VideoEvent::Resumed).1.phase is Ended,
{
}

/// Only packets of the generation that the queue is at are decoded, in the order in which they
/// were read, and none of that generation is dropped.
pub proof fn law_current_packets_are_decoded(
    thread: VideoThread,
    state: DecoderStateView,
    event: VideoEvent,
)
    requires
        state.video.packets.consistent(),
    ensures
        ({
            let (action, after, next) = stepped(thread, state, event);
            &&& action matches VideoAction::Decode { packet, flush } ==> {
                &&& packet == state.video.packets.packets.first()
                &&& packet.serial == state.video.packets.serial
                &&& flush == (packet.serial != thread.packet_serial)
                &&& after.packet_serial == packet.serial
            }
            &&& !(action is Discard)
        }),
{
    if state.video.packets.packets.len() > 0 {
        assert(state.video.packets.packets[0] == state.video.packets.packets.first());
    }
}

/// The thread skips until a frame is queued, and until then gets no frame ready that has a time
/// before the timestamp that is skipped to, but for the held one at the end of the stream.
pub proof fn law_nothing_before_the_target_is_shown(
    thread: VideoThread,
    state: DecoderStateView,
    event: VideoEvent,
    target: i64,
)
    requires
        thread.selector.skip_to == Some(target),
    ensures
        ({
            let (action, after, next) = stepped(thread, state, event);
            &&& !(action is Queue) ==> after.selector.skip_to == Some(target)
            &&& action is Show ==> match event {
                VideoEvent::Answered { received, behind_master, clock_serial } => match received {
                    Received::Frame(Some(time)) => time.micros >= target,
                    _ => true,
                },
                _ => false,
            }
        }),
{
}

/// A frame that is queued comes last, and is of the generation of the last packet. Nothing but
/// that puts frames in the queue, nothing but the step to the next packet takes packets out of
/// theirs, and the audio stream is left alone.
pub proof fn law_steps_keep_to_their_queues(
    thread: VideoThread,
    state: DecoderStateView,
    event: VideoEvent,
)
    ensures
        ({
            let (action, after, next) = stepped(thread, state, event);
            &&& action matches VideoAction::Queue(slot) ==> {
                &&& next.video.frames.queued.len() == state.video.frames.queued.len() + 1
                &&& next.video.frames.queued.last().serial == thread.packet_serial
                &&& next.video.frames.queued.last().slot == slot
            }
            &&& !(action is Queue) ==> next.video.frames == state.video.frames && next.play_state
                == state.play_state && next.current_pts == state.current_pts
            &&& !(action is Decode) && !(action is Discard) ==> next.video.packets
                == state.video.packets
            &&& next.audio == state.audio
            &&& next.alive == state.alive
            &&& next.is_eof == state.is_eof
        }),
{
}

/// A round begins with what was held before dropped, and with everything else as it was.
pub proof fn law_rounds_begin_with_nothing_held(
    thread: VideoThread,
    state: DecoderStateView,
    event: VideoEvent,
)
    requires
        thread.phase is Round,
        state.alive,
    ensures
        ({
            let (action, after, next) = stepped(thread, state, event);
            &&& action is BeginRound
            &&& after.phase is Frames
            &&& after.selector.held is None
            &&& after.selector.skip_to == thread.selector.skip_to
            &&& after.packet_serial == thread.packet_serial
            &&& next == state
        }),
{
}

/// While the player lives, the decoder is asked for a frame exactly where a slot is free for it;
/// without one the thread sleeps. Neither changes anything.
pub proof fn law_frames_are_asked_for_while_a_slot_is_free(
    thread: VideoThread,
    state: DecoderStateView,
    event: VideoEvent,
)
    requires
        thread.phase is Frames,
        state.alive,
        !(event is Answered),
    ensures
        ({
            let (action, after, next) = stepped(thread, state, event);
            &&& action is Receive <==> state.video.frames.free.len() > 0
            &&& action is Sleep <==> state.video.frames.free.len() == 0
            &&& after == thread
            &&& next == state
        }),
{
}

/// A decoder that is drained, with no frame held, is flushed before the next packet, whatever
/// timestamp is skipped to: it takes no packet otherwise.
pub proof fn law_drained_decoders_are_flushed(
    thread: VideoThread,
    state: DecoderStateView,
    behind_master: bool,
    clock_serial: u32,
)
    requires
        thread.phase is Frames,
        thread.selector.held is None,
    ensures
        ({
            let (action, after, next) = stepped(
                thread,
                state,
                VideoEvent::Answered { received: Received::Eof, behind_master, clock_serial },
            );
            &&& action is Flush
            &&& after.phase is Packets
            &&& after.selector == thread.selector
            &&& after.packet_serial == thread.packet_serial
            &&& next == state
        }),
{
}

/// At the end of the stream a frame that is held is shown, and held no more.
pub proof fn law_held_frames_are_shown_at_the_end(
    thread: VideoThread,
    state: DecoderStateView,
    behind_master: bool,
    clock_serial: u32,
)
    requires
        thread.phase is Frames,
        thread.selector.held is Some,
    ensures
        ({
            let (action, after, next) = stepped(
                thread,
                state,
                VideoEvent::Answered { received: Received::Eof, behind_master, clock_serial },
            );
            &&& action is ShowHeld
            &&& after.phase is Present
            &&& after.selector.held is None
            &&& after.selector.skip_to == thread.selector.skip_to
            &&& after.packet_serial == thread.packet_serial
            &&& next == state
        }),
{
}

/// A decoder that wants a packet is given the next one without a flush, and after an error it is
/// asked again. Neither changes what is skipped to or held.
pub proof fn law_other_answers_lead_on(
    thread: VideoThread,
    state: DecoderStateView,
    behind_master: bool,
    clock_serial: u32,
)
    requires
        thread.phase is Frames,
    ensures
        ({
            let (action, after, next) = stepped(
                thread,
                state,
                VideoEvent::Answered { received: Received::Again, behind_master, clock_serial },
            );
            &&& action is Proceed
            &&& after.phase is Packets
            &&& after.selector == thread.selector
            &&& after.packet_serial == thread.packet_serial
            &&& next == state
        }),
        ({
            let (action, after, next) = stepped(
                thread,
                state,
                VideoEvent::Answered { received: Received::Failed, behind_master, clock_serial },
            );
            &&& action is Drop
            &&& after == thread
            &&& next == state
        }),
{
}

/// A frame with a time before the timestamp that is skipped to is held, late or not. Any other is
/// dropped exactly where it is behind the master clock, the video clock follows the packets that it
/// was decoded from, and another packet waits; else it is shown.
pub proof fn law_frames_are_held_dropped_or_shown(
    thread: VideoThread,
    state: DecoderStateView,
    time: FrameTime,
    behind_master: bool,
    clock_serial: u32,
)
    requires
        thread.phase is Frames,
    ensures
        ({
            let (action, after, next) = stepped(
                thread,
                state,
                VideoEvent::Answered {
                    received: Received::Frame(Some(time)),
                    behind_master,
                    clock_serial,
                },
            );
            let before_target = match thread.selector.skip_to {
                Some(target) => time.micros < target,
                None => false,
            };
            let late = behind_master && clock_serial == thread.packet_serial
                && state.video.packets.packets.len() > 0;
            &&& before_target ==> action is Hold && after.phase is Frames && after.selector.held
                == Some(time.pts)
            &&& !before_target && late ==> action is Drop && after.phase is Frames
            &&& !before_target && !late ==> action is Show && after.phase is Present
            &&& !before_target ==> after.selector.held is None
            &&& after.selector.skip_to == thread.selector.skip_to
            &&& after.packet_serial == thread.packet_serial
            &&& next == state
        }),
{
}

/// A frame without a time is shown, and changes nothing before it is queued.
pub proof fn law_untimed_frames_are_shown(
    thread: VideoThread,
    state: DecoderStateView,
    behind_master: bool,
    clock_serial: u32,
)
    requires
        thread.phase is Frames,
    ensures
        ({
            let (action, after, next) = stepped(
                thread,
                state,
                VideoEvent::Answered {
                    received: Received::Frame(None),
                    behind_master,
                    clock_serial,
                },
            );
            &&& action is Show
            &&& after.phase is Present
            &&& after.selector == thread.selector
            &&& after.packet_serial == thread.packet_serial
            &&& next == state
        }),
{
}

/// A frame that is ready is queued behind the others as soon as a slot is free, in the slot that
/// was free longest, with its own timestamp and the generation of the last packet. It ends the
/// skipping.
pub proof fn law_ready_frames_are_queued_as_they_are(
    thread: VideoThread,
    state: DecoderStateView,
    pts: Option<i64>,
    timestamp: i64,
)
    requires
        thread.phase is Present,
    ensures
        ({
            let (action, after, next) = stepped(
                thread,
                state,
                VideoEvent::Ready { pts, timestamp },
            );
            let (before, frames) = (state.video.frames, next.video.frames);
            &&& before.free.len() == 0 ==> action is Sleep && after == thread && next == state
            &&& before.free.len() > 0 ==> {
                &&& action == VideoAction::Queue(before.free[0].slot)
                &&& frames.queued.len() == before.queued.len() + 1
                &&& frames.queued.last().timestamp == timestamp
                &&& frames.queued.last().serial == thread.packet_serial
                &&& frames.queued.last().slot == before.free[0].slot
                &&& frames.queued.drop_last() == before.queued
                &&& frames.free == before.free.skip(1)
                &&& frames.capacity == before.capacity
                &&& after.phase is Frames
                &&& after.selector.skip_to is None
                &&& after.selector.held is None
                &&& after.packet_serial == thread.packet_serial
            }
        }),
{
    let next = stepped(thread, state, VideoEvent::Ready { pts, timestamp }).2;
    if state.video.frames.free.len() > 0 {
        assert(next.video.frames.queued.drop_last() =~= state.video.frames.queued);
        assert(next.video.frames.free =~= state.video.frames.free.skip(1));
    }
}

/// A queued frame tells the position where it has a time, and makes a paused player step exactly
/// where it has one and ends an accurate seek. Nothing else of the player is changed.
pub proof fn law_queued_frames_tell_the_position(
    thread: VideoThread,
    state: DecoderStateView,
    pts: Option<i64>,
    timestamp: i64,
)
    requires
        thread.phase is Present,
        state.video.frames.free.len() > 0,
    ensures
        ({
            let next = stepped(thread, state, VideoEvent::Ready { pts, timestamp }).2;
            &&& match pts {
                Some(pts) => next.current_pts == pts,
                None => next.current_pts == state.current_pts,
            }
            &&& state.play_state is Paused && pts is Some && thread.selector.skip_to is Some
                ==> next.play_state is Step
            &&& !(state.play_state is Paused) || pts is None || thread.selector.skip_to is None
                ==> next.play_state == state.play_state
            &&& next.video.packets == state.video.packets
            &&& next.video.metadata == state.video.metadata
            &&& next.metadata == state.metadata
        }),
{
}

/// While a frame is to be queued, nothing but its being ready changes anything.
pub proof fn law_frames_wait_to_be_ready(
    thread: VideoThread,
    state: DecoderStateView,
    event: VideoEvent,
)
    requires
        thread.phase is Present,
        !(event is Ready),
    ensures
        stepped(thread, state, event) == (VideoAction::Proceed, thread, state),
{
}

/// The oldest packet is taken from the queue where there is one, and none other. Its own serial
/// number decides: it is decoded where that is the queue's, and a new round begins; the decoder is
/// flushed first where it is not that of the last packet. What is skipped to stays.
pub proof fn law_packets_are_taken_one_by_one(
    thread: VideoThread,
    state: DecoderStateView,
    event: VideoEvent,
)
    requires
        thread.phase is Packets,
        state.alive,
    ensures
        ({
            let (action, after, next) = stepped(thread, state, event);
            let (before, packets) = (state.video.packets, next.video.packets);
            &&& before.packets.len() == 0 ==> action is Sleep && after == thread && next == state
            &&& before.packets.len() > 0 ==> {
                let first = before.packets[0];
                let flush = thread.packet_serial != first.serial;
                &&& first.serial == before.serial ==> action == (VideoAction::Decode {
                    packet: first,
                    flush,
                }) && after.phase is Round
                &&& first.serial != before.serial ==> action == (VideoAction::Discard {
                    packet: first,
                    flush,
                }) && after.phase is Packets
                &&& after.packet_serial == first.serial
                &&& after.selector == thread.selector
                &&& packets.packets == before.packets.skip(1)
                &&& packets.serial == before.serial
                &&& packets.stream == before.stream
                &&& before.consistent() ==> packets.consistent()
                &&& next.video.frames == state.video.frames
                &&& next.video.metadata == state.video.metadata
                &&& next.play_state == state.play_state
                &&& next.current_pts == state.current_pts
                &&& next.metadata == state.metadata
            }
        }),
{
    let next = stepped(thread, state, event).2;
    if state.video.packets.packets.len() > 0 {
        assert(next.video.packets.packets =~= state.video.packets.packets.skip(1));
        if state.video.packets.consistent() {
            law_queue_stays_consistent(state.video.packets, 0, 0);
        }
    }
}

/// A thread that is over stays over and touches nothing, and the player's end ends it at the
/// beginning of a round, while it asks for frames and while it waits for packets.
pub proof fn law_ended_threads_touch_nothing(
    thread: VideoThread,
    state: DecoderStateView,
    event: VideoEvent,
)
    requires
        thread.phase is Ended || !state.alive && (thread.phase is Round || thread.phase is Packets
            || thread.phase is Frames && !(event is Answered)),
    ensures
        ({
            let (action, after, next) = stepped(thread, state, event);
            &&& action is End
            &&& after.phase is Ended
            &&& next == state
        }),
{
}

/// A codec is decoded on a device by the first of its configurations that is made for that type of
/// device and works on a device context, and never by one that is not.
pub proof fn law_configurations_fit_their_device(
    configs: Seq<HwConfig>,
    device_type: i32,
    i: int,
    j: int,
)
    requires
        is_first_fit(configs, device_type, i),
    ensures
        configs[i].device_type == device_type,
        configs[i].methods % 2 == 1,
        0 <= i < 16,
        0 <= j < i ==> configs[j].device_type != device_type || configs[j].methods % 2 == 0,
        is_first_fit(configs, device_type, j) ==> i == j,
        !none_fits(configs, device_type),
{
    let methods = configs[i].methods;
    assert(methods & 1u32 != 0 ==> methods % 2 == 1) by (bit_vector);
    if 0 <= j < i {
        assert(!fits_device(configs[j], device_type));
        let other = configs[j].methods;
        assert(other & 1u32 == 0 ==> other % 2 == 0) by (bit_vector);
    }
    if is_first_fit(configs, device_type, j) && j > i {
        assert(!fits_device(configs[i], device_type));
    }
    assert(fits_device(configs[i], device_type));
}

/// A format is offered exactly where it stands in the list before the first absent one; the absent
/// one never is.
pub proof fn law_offers_end_with_the_absent_format(
    offered: Seq<PixelFormat>,
    format: PixelFormat,
    end: int,
)
    requires
        0 <= end <= offered.len(),
        end < offered.len() ==> offered[end] is Absent,
        forall|i: int| 0 <= i < end ==> !(#[trigger] offered[i] is Absent),
    ensures
        is_offered(offered, format) <==> offered.take(end).contains(format),
        !is_offered(offered, PixelFormat::Absent),
{
    if offered.take(end).contains(format) {
        let i = choose|i: int| 0 <= i < end && offered.take(end)[i] == format;
        assert(offered[i] == format);
    }
    if is_offered(offered, format) {
        let i = choose|i: int|
            #![trigger offered[i]]
            0 <= i < offered.len() && offered[i] == format && forall|j: int|
                0 <= j <= i ==> #[trigger] offered[j] != PixelFormat::Absent;
        if i >= end {
            assert(offered[end] != PixelFormat::Absent);
        }
        assert(offered.take(end)[i] == format);
    }
}

} // verus!
