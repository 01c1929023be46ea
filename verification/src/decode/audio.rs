//! The thread that decodes the audio stream, and what it hands its frames to.
use crate::decode::clock::{is_not_a_number, not_a_number, UNKNOWN_TIME};
use crate::decode::frame_queue::{all_emptied, Frame, FrameQueue, FrameQueueView};
use crate::decode::packet_queue::{
    accept_packet, law_queue_stays_consistent, packet_step, Packet, PacketQueue, PacketStep,
};
use crate::decode::selector::{FrameSelector, FrameStep, FrameTime, Received};
use crate::decode::video::{Phase, PollStep};
use crate::decode::{DecoderState, DecoderStateView, PlayState, StreamView};
use crate::rational::Rational;
use vstd::prelude::*;

verus! {

/// The form in which samples are played.
#[derive(Debug, Clone, Copy, PartialEq, Eq, PartialOrd, Ord, Hash, Structural)]
pub struct AudioParameters {
    pub sample_rate: u32,
    pub channels: u16,
}

/// What is known of an audio stream.
#[derive(Debug, Clone, Copy, PartialEq, Eq, Structural)]
pub struct AudioMetadata {
    pub index: usize,
    pub time_base: Rational,
    pub sample_rate: u32,
    pub channels: u16,
    /// The sample format, as FFmpeg numbers them.
    pub format: i32,
    /// The mask of the channels.
    pub channel_layout: u64,
    /// How many samples a frame holds.
    pub frame_size: u32,
}

/// No sample format.
pub const NO_FORMAT: i32 = -1;

/// The channels of a stereo layout.
pub const STEREO: u64 = 3;

impl Default for AudioMetadata {
    /// The metadata of a stream that is not there.
    fn default() -> (metadata: AudioMetadata)
        ensures
            metadata == (AudioMetadata {
                index: usize::MAX,
                time_base: Rational { num: 0, den: 1 },
                sample_rate: 0,
                channels: 0,
                format: NO_FORMAT,
                channel_layout: STEREO,
                frame_size: 0,
            }),
    {
        AudioMetadata {
            index: usize::MAX,
            time_base: Rational::new(0, 1),
            sample_rate: 0,
            channels: 0,
            format: NO_FORMAT,
            channel_layout: STEREO,
            frame_size: 0,
        }
    }
}

/// The audio stream of an input.
pub struct AudioStream {
    pub metadata: AudioMetadata,
    pub packets: PacketQueue,
    pub frames: FrameQueue,
}

impl View for AudioStream {
    type V = StreamView<AudioMetadata>;

    open spec fn view(&self) -> StreamView<AudioMetadata> {
        StreamView { metadata: self.metadata, packets: self.packets@, frames: self.frames@ }
    }
}

impl AudioStream {
    /// The queues are well formed, and the packets are those of the stream.
    pub open spec fn wf(&self) -> bool {
        &&& self.packets.wf()
        &&& self.frames.wf()
        &&& self.packets@.stream == self.metadata.index
    }
}

/// A request to the thread.
#[derive(Debug, Clone, Copy, PartialEq, Eq, Structural)]
pub enum Message {
    /// Hand out nothing before the timestamp, in microseconds.
    SkipToTimestamp(i64),
    /// Resample to these parameters.
    UpdateParameters(AudioParameters),
}

/// A resampler from the stream's form to packed 32-bit floats.
#[derive(Debug, Clone, Copy, PartialEq, Eq, Structural)]
pub struct ResamplerPlan {
    pub in_format: i32,
    pub in_layout: u64,
    pub in_rate: u32,
    pub out_format: i32,
    /// The mask of the first channels, as many as there are to be.
    pub out_layout: u64,
    pub out_channels: u16,
    pub out_rate: u32,
}

/// As many bits, from the lowest on, are set.
pub open spec fn low_bits(count: u16) -> u64 {
    ((1u64 << (count as u64)) - 1) as u64
}

/// The resampler for a stream and parameters.
pub open spec fn resampler_plan(metadata: AudioMetadata, parameters: AudioParameters) ->
    ResamplerPlan {
    ResamplerPlan {
        in_format: metadata.format,
        in_layout: metadata.channel_layout,
        in_rate: metadata.sample_rate,
        out_format: PACKED_FLOAT,
        out_layout: low_bits(parameters.channels),
        out_channels: parameters.channels,
        out_rate: parameters.sample_rate,
    }
}

/// The quotient without its fraction, rounded toward zero.
pub open spec fn truncated_quotient(a: int, b: int) -> int {
    if a >= 0 {
        a / b
    } else {
        -((-a) / b)
    }
}

/// The time to ask a resampler for, in units of one over the product of both rates: that of the
/// frame that goes in.
pub fn resampler_input_pts(pts: i64, out_rate: u32) -> (scaled: i64)
    requires
        i64::MIN <= pts * out_rate <= i64::MAX,
    ensures
        scaled == pts * out_rate,
{
    pts * out_rate as i64
}

/// The time of the frame that came out of a resampler, out of what the resampler told.
pub fn resampled_pts(next_pts: i64, in_rate: u32) -> (pts: i64)
    requires
        in_rate > 0,
    ensures
        pts == truncated_quotient(next_pts as int, in_rate as int),
{
    let rate: i128 = in_rate as i128;
    let next: i128 = next_pts as i128;
    proof {
        let magnitude: int = if next >= 0 {
            next as int
        } else {
            -next as int
        };
        assert(0 <= magnitude / (rate as int) <= magnitude) by (nonlinear_arith)
            requires
                magnitude >= 0,
                rate >= 1,
        ;
    }
    if next >= 0 {
        (next / rate) as i64
    } else {
        (-((-next) / rate)) as i64
    }
}

/// What to do before the decoder is asked for a frame.
#[derive(Debug, Clone, Copy, PartialEq, Eq, Structural)]
pub struct AudioPoll {
    /// Flush the decoder and the resampler first.
    pub flush: bool,
    pub step: PollStep,
}

/// What happened since the last step of the thread.
#[derive(Debug, Clone, Copy, PartialEq, Eq, Structural)]
pub enum AudioEvent {
    /// The last action was done.
    Resumed,
    /// The decoder answered.
    Answered(Received),
    /// The frame to queue was resampled and has this best known timestamp.
    Ready { timestamp: i64 },
}

/// What the thread does next.
#[derive(Debug, Clone, Copy, PartialEq, Eq, Structural)]
pub enum AudioAction {
    /// End.
    End,
    /// Take note of the requests that came.
    BeginRound,
    /// Flush the decoder and the resampler where `flush` says so, then sleep for a while. Where
    /// a frame is to be queued, it still is.
    Sleep { flush: bool },
    /// Flush the decoder and the resampler where `flush` says so, then ask the decoder for a
    /// frame.
    Receive { flush: bool },
    /// Keep the frame as the held one.
    Hold,
    /// Drop the frame, where there is one.
    Drop,
    /// Resample the frame.
    Show,
    /// Resample the held frame.
    ShowHeld,
    /// Put the frame in this slot.
    Queue(u64),
    /// Flush the decoder and the resampler.
    Flush,
    /// Go on.
    Proceed,
    /// Give the packet to the decoder; it and the resampler are flushed first where `flush`
    /// says so.
    Decode { packet: Packet, flush: bool },
    /// Drop the packet. The decoder and the resampler are flushed where `flush` says so.
    Discard { packet: Packet, flush: bool },
}

/// The decisions of the thread that decodes the audio stream.
#[derive(Debug, Clone, Copy, PartialEq, Eq, Structural)]
pub struct AudioThread {
    pub phase: Phase,
    /// The generation of the last packet.
    pub packet_serial: u32,
    pub selector: FrameSelector,
    /// What the resampler resamples to, where there is one.
    pub resampler: Option<AudioParameters>,
}

/// What a thread whose last packet is of the generation `packet_serial` does before it asks for a
/// frame.
pub open spec fn audio_poll(packet_serial: u32, state: DecoderStateView) -> AudioPoll {
    if !state.alive {
        AudioPoll { flush: false, step: PollStep::End }
    } else {
        AudioPoll {
            flush: packet_serial != state.audio.packets.serial,
            step: if state.audio.frames.free.len() == 0 {
                PollStep::Wait
            } else {
                PollStep::Receive
            },
        }
    }
}

/// The state after a frame was queued.
pub open spec fn after_present(
    state: DecoderStateView,
    packet_serial: u32,
    timestamp: i64,
) -> DecoderStateView {
    DecoderStateView {
        audio: StreamView {
            frames: state.audio.frames.sent(timestamp, packet_serial),
            ..state.audio
        },
        ..state
    }
}

/// A step of the thread while the decoder gives frames.
pub open spec fn answered(thread: AudioThread, state: DecoderStateView, received: Received) -> (
    AudioAction,
    AudioThread,
    DecoderStateView,
) {
    let (step, selector) = thread.selector.selected(received, false);
    let (action, phase) = match step {
        FrameStep::Hold => (AudioAction::Hold, Phase::Frames),
        FrameStep::Drop => (AudioAction::Drop, Phase::Frames),
        FrameStep::Ignore => (AudioAction::Drop, Phase::Frames),
        FrameStep::Show(_) => (AudioAction::Show, Phase::Present),
        FrameStep::ShowHeld(_) => (AudioAction::ShowHeld, Phase::Present),
        FrameStep::FlushAndFetch => (AudioAction::Flush, Phase::Packets),
        FrameStep::Fetch => (AudioAction::Proceed, Phase::Packets),
    };
    (action, AudioThread { phase, selector, ..thread }, state)
}

/// A step of the thread while the decoder needs a packet.
pub open spec fn fetched(thread: AudioThread, state: DecoderStateView) -> (
    AudioAction,
    AudioThread,
    DecoderStateView,
) {
    if !state.alive {
        (AudioAction::End, AudioThread { phase: Phase::Ended, ..thread }, state)
    } else if state.audio.packets.packets.len() == 0 {
        (AudioAction::Sleep { flush: false }, thread, state)
    } else {
        let packet = state.audio.packets.packets.first();
        let step = packet_step(thread.packet_serial, packet, state.audio.packets.serial);
        let taken = DecoderStateView {
            audio: StreamView { packets: state.audio.packets.popped(), ..state.audio },
            ..state
        };
        if step.decode {
            (
                AudioAction::Decode { packet, flush: step.flush },
                AudioThread { phase: Phase::Round, packet_serial: packet.serial, ..thread },
                taken,
            )
        } else {
            (
                AudioAction::Discard { packet, flush: step.flush },
                AudioThread { packet_serial: packet.serial, ..thread },
                taken,
            )
        }
    }
}

/// A step of the thread: what it does next, and the thread and the state after it.
pub open spec fn stepped(thread: AudioThread, state: DecoderStateView, event: AudioEvent) -> (
    AudioAction,
    AudioThread,
    DecoderStateView,
) {
    match thread.phase {
        Phase::Round => if state.alive {
            (
                AudioAction::BeginRound,
                AudioThread {
                    phase: Phase::Frames,
                    selector: FrameSelector { held: None, ..thread.selector },
                    ..thread
                },
                state,
            )
        } else {
            (AudioAction::End, AudioThread { phase: Phase::Ended, ..thread }, state)
        },
        Phase::Frames => match event {
            AudioEvent::Answered(received) => answered(thread, state, received),
            _ => {
                let poll = audio_poll(thread.packet_serial, state);
                match poll.step {
                    PollStep::End => (
                        AudioAction::End,
                        AudioThread { phase: Phase::Ended, ..thread },
                        state,
                    ),
                    PollStep::Wait => (AudioAction::Sleep { flush: poll.flush }, thread, state),
                    PollStep::Receive => (AudioAction::Receive { flush: poll.flush }, thread, state),
                }
            },
        },
        Phase::Present => match event {
            AudioEvent::Ready { timestamp } => if state.audio.frames.free.len() == 0 {
                (AudioAction::Sleep { flush: false }, thread, state)
            } else {
                (
                    AudioAction::Queue(state.audio.frames.free.first().slot),
                    AudioThread {
                        phase: Phase::Frames,
                        selector: FrameSelector { skip_to: None, held: None },
                        ..thread
                    },
                    after_present(state, thread.packet_serial, timestamp),
                )
            },
            _ => (AudioAction::Proceed, thread, state),
        },
        Phase::Packets => fetched(thread, state),
        Phase::Ended => (AudioAction::End, thread, state),
    }
}

impl AudioThread {
    /// The decisions of a thread that has not begun.
    pub fn new() -> (thread: AudioThread)
        ensures
            thread == (AudioThread {
                phase: Phase::Round,
                packet_serial: 0,
                selector: FrameSelector { skip_to: None, held: None },
                resampler: None,
            }),
    {
        AudioThread {
            phase: Phase::Round,
            packet_serial: 0,
            selector: FrameSelector::new(),
            resampler: None,
        }
    }

    /// What the thread does next.
    pub fn step(&mut self, state: &mut DecoderState, event: AudioEvent) -> (action: AudioAction)
        requires
            old(state).wf(),
        ensures
            final(state).wf(),
            (action, *final(self), final(state)@) == stepped(*old(self), old(state)@, event),
    {
        match self.phase {
            Phase::Round => if state.alive {
                self.begin_round();
                self.phase = Phase::Frames;
                AudioAction::BeginRound
            } else {
                self.phase = Phase::Ended;
                AudioAction::End
            },
            Phase::Frames => match event {
                AudioEvent::Answered(received) => match self.received(received) {
                    FrameStep::Hold => AudioAction::Hold,
                    FrameStep::Drop => AudioAction::Drop,
                    FrameStep::Ignore => AudioAction::Drop,
                    FrameStep::Show(_) => {
                        self.phase = Phase::Present;
                        AudioAction::Show
                    },
                    FrameStep::ShowHeld(_) => {
                        self.phase = Phase::Present;
                        AudioAction::ShowHeld
                    },
                    FrameStep::FlushAndFetch => {
                        self.phase = Phase::Packets;
                        AudioAction::Flush
                    },
                    FrameStep::Fetch => {
                        self.phase = Phase::Packets;
                        AudioAction::Proceed
                    },
                },
                _ => {
                    let poll = self.poll(state);
                    match poll.step {
                        PollStep::End => {
                            self.phase = Phase::Ended;
                            AudioAction::End
                        },
                        PollStep::Wait => AudioAction::Sleep { flush: poll.flush },
                        PollStep::Receive => AudioAction::Receive { flush: poll.flush },
                    }
                },
            },
            Phase::Present => match event {
                AudioEvent::Ready { timestamp } => match self.present(state, timestamp) {
                    Some(slot) => {
                        self.phase = Phase::Frames;
                        AudioAction::Queue(slot)
                    },
                    None => AudioAction::Sleep { flush: false },
                },
                _ => AudioAction::Proceed,
            },
            Phase::Packets => if !state.alive {
                self.phase = Phase::Ended;
                AudioAction::End
            } else {
                match state.audio_stream.packets.try_receive() {
                    None => AudioAction::Sleep { flush: false },
                    Some(packet) => {
                        let current: u32 = state.audio_stream.packets.serial();
                        let step = self.packet_received(packet, current);
                        if step.decode {
                            self.phase = Phase::Round;
                            AudioAction::Decode { packet, flush: step.flush }
                        } else {
                            AudioAction::Discard { packet, flush: step.flush }
                        }
                    },
                }
            },
            Phase::Ended => AudioAction::End,
        }
    }

    /// Skips to a timestamp, in microseconds.
    pub fn skip_to_timestamp(&mut self, ts: i64)
        ensures
            *final(self) == (AudioThread {
                selector: FrameSelector { skip_to: Some(ts), ..old(self).selector },
                ..*old(self)
            }),
    {
        self.selector.skip_to = Some(ts);
    }

    /// The resampler to make for new parameters: none where the one that is there has them.
    pub fn update_parameters(&self, metadata: &AudioMetadata, parameters: AudioParameters) -> (plan:
        Option<ResamplerPlan>)
        requires
            self.resampler == Some(parameters) || parameters.channels < 64,
        ensures
            plan == (if self.resampler == Some(parameters) {
                None
            } else {
                Some(resampler_plan(*metadata, parameters))
            }),
            match plan {
                Some(plan) => {
                    &&& plan.in_format == metadata.format
                    &&& plan.in_layout == metadata.channel_layout
                    &&& plan.in_rate == metadata.sample_rate
                    &&& plan.out_channels == parameters.channels
                    &&& plan.out_rate == parameters.sample_rate
                },
                None => self.resampler == Some(parameters),
            },
    {
        if let Some(current) = self.resampler {
            if current == parameters {
                return None;
            }
        }
        let channels: u64 = parameters.channels as u64;
        assert(1u64 << channels >= 1) by (bit_vector)
            requires
                channels < 64,
        ;
        Some(
            ResamplerPlan {
                in_format: metadata.format,
                in_layout: metadata.channel_layout,
                in_rate: metadata.sample_rate,
                out_format: PACKED_FLOAT,
                out_layout: (1u64 << channels) - 1,
                out_channels: parameters.channels,
                out_rate: parameters.sample_rate,
            },
        )
    }

    /// Takes note that the resampler for these parameters was made. Returns how many samples
    /// its output frame holds.
    pub fn resampler_made(&mut self, metadata: &AudioMetadata, parameters: AudioParameters) -> (
    samples: u32)
        requires
            metadata.sample_rate > 0,
            metadata.frame_size * parameters.sample_rate <= u32::MAX,
        ensures
            samples == metadata.frame_size * parameters.sample_rate / metadata.sample_rate as int,
            *final(self) == (AudioThread { resampler: Some(parameters), ..*old(self) }),
    {
        self.resampler = Some(parameters);
        metadata.frame_size * parameters.sample_rate / metadata.sample_rate
    }

    /// Begins a round: what is held from the last one is dropped.
    pub fn begin_round(&mut self)
        ensures
            *final(self) == (AudioThread {
                selector: FrameSelector { held: None, ..old(self).selector },
                ..*old(self)
            }),
    {
        self.selector.held = None;
    }

    /// What to do before the decoder is asked for a frame.
    pub fn poll(&self, state: &DecoderState) -> (poll: AudioPoll)
        requires
            state.wf(),
        ensures
            poll == audio_poll(self.packet_serial, state@),
    {
        if !state.alive {
            return AudioPoll { flush: false, step: PollStep::End };
        }
        let flush = self.packet_serial != state.audio_stream.packets.serial();
        let step = if !state.audio_stream.frames.has_free() {
            PollStep::Wait
        } else {
            PollStep::Receive
        };
        AudioPoll { flush, step }
    }

    /// What to do with the answer of the decoder.
    pub fn received(&mut self, received: Received) -> (step: FrameStep)
        ensures
            *final(self) == (AudioThread { selector: final(self).selector, ..*old(self) }),
            (step, final(self).selector) == old(self).selector.selected(received, false),
    {
        self.selector.select(received, false)
    }

    /// Queues a frame that is to be handed out, and returns the slot to put it in. Without a
    /// free slot nothing changes.
    pub fn present(&mut self, state: &mut DecoderState, timestamp: i64) -> (slot: Option<u64>)
        requires
            old(state).wf(),
        ensures
            final(state).wf(),
            match slot {
                Some(slot) => {
                    &&& old(state)@.audio.frames.free.len() > 0
                    &&& slot == old(state)@.audio.frames.free.first().slot
                    &&& final(state)@ == after_present(
                        old(state)@,
                        old(self).packet_serial,
                        timestamp,
                    )
                    &&& *final(self) == (AudioThread {
                        selector: FrameSelector { skip_to: None, held: None },
                        ..*old(self)
                    })
                },
                None => {
                    &&& old(state)@.audio.frames.free.len() == 0
                    &&& final(state)@ == old(state)@
                    &&& *final(self) == *old(self)
                },
            },
    {
        match state.audio_stream.frames.send(timestamp, self.packet_serial) {
            None => None,
            Some(slot) => {
                self.selector.held = None;
                self.selector.skip_to = None;
                Some(slot)
            },
        }
    }

    /// What to do with a packet, while the queue is at the generation `queue_serial`. Where the
    /// decoder is flushed, so is the resampler.
    pub fn packet_received(&mut self, packet: Packet, queue_serial: u32) -> (step: PacketStep)
        ensures
            step == packet_step(old(self).packet_serial, packet, queue_serial),
            *final(self) == (AudioThread { packet_serial: packet.serial, ..*old(self) }),
    {
        accept_packet(&mut self.packet_serial, packet, queue_serial)
    }
}

/// When the player ends, so does the thread, wherever in its round it is, unless it has a frame
/// to queue first.
pub proof fn law_thread_ends_with_the_player(thread: AudioThread, state: DecoderStateView)
    requires
        !state.alive,
        !(thread.phase is Present),
    ensures
        stepped(thread, state, AudioEvent::Resumed).0 is End,
        stepped(thread, state, AudioEvent::Resumed).1.phase is Ended,
{
}

/// Only packets of the generation that the queue is at are decoded, in the order in which they
/// were read, and none of that generation is dropped.
pub proof fn law_current_packets_are_decoded(
    thread: AudioThread,
    state: DecoderStateView,
    event: AudioEvent,
)
    requires
        state.audio.packets.consistent(),
    ensures
        ({
            let (action, after, next) = stepped(thread, state, event);
            &&& action matches AudioAction::Decode { packet, flush } ==> {
                &&& packet == state.audio.packets.packets.first()
                &&& packet.serial == state.audio.packets.serial
                &&& flush == (packet.serial != thread.packet_serial)
                &&& after.packet_serial == packet.serial
            }
            &&& !(action is Discard)
        }),
{
    if state.audio.packets.packets.len() > 0 {
        assert(state.audio.packets.packets[0] == state.audio.packets.packets.first());
    }
}

/// The thread skips until a frame is queued, and until then gets no frame ready that has a time
/// before the timestamp that is skipped to, but for the held one at the end of the stream.
pub proof fn law_nothing_before_the_target_is_shown(
    thread: AudioThread,
    state: DecoderStateView,
    event: AudioEvent,
    target: i64,
)
    requires
        thread.selector.skip_to == Some(target),
    ensures
        ({
            let (action, after, next) = stepped(thread, state, event);
            &&& !(action is Queue) ==> after.selector.skip_to == Some(target)
            &&& action is Show ==> match event {
                AudioEvent::Answered(received) => match received {
                    Received::Frame(Some(time)) => time.micros >= target,
                    _ => true,
                },
                _ => false,
            }
        }),
{
}

/// A frame that is queued comes last, and is of the generation of the last packet. Nothing but
/// that puts frames in the queue, nothing but the step to the next packet takes packets out of
/// theirs, and all else is left alone.
pub proof fn law_steps_keep_to_their_queues(
    thread: AudioThread,
    state: DecoderStateView,
    event: AudioEvent,
)
    ensures
        ({
            let (action, after, next) = stepped(thread, state, event);
            &&& action matches AudioAction::Queue(slot) ==> {
                &&& next.audio.frames.queued.len() == state.audio.frames.queued.len() + 1
                &&& next.audio.frames.queued.last().serial == thread.packet_serial
                &&& next.audio.frames.queued.last().slot == slot
            }
            &&& !(action is Queue) ==> next.audio.frames == state.audio.frames
            &&& !(action is Decode) && !(action is Discard) ==> next.audio.packets
                == state.audio.packets
            &&& next == (DecoderStateView { audio: next.audio, ..state })
            &&& next.audio.metadata == state.audio.metadata
        }),
{
}

/// The sample format of packed 32-bit floats.
pub const PACKED_FLOAT: i32 = 3;

/// A decoded audio frame.
pub struct AudioFrame {
    pub rate: u32,
    pub format: i32,
    pub channels: u16,
    /// The bit pattern of the time at which the frame ends, where it has a time.
    pub end_time: Option<u64>,
    /// The bit patterns of the samples.
    pub samples: Vec<u32>,
}

/// The frame has the form in which samples are played.
pub open spec fn has_parameters(frame: AudioFrame, parameters: AudioParameters) -> bool {
    &&& frame.rate == parameters.sample_rate
    &&& frame.format == PACKED_FLOAT
    &&& frame.channels == parameters.channels
}

/// How the clock of the audio stream is to be set: `buffered` samples, at `target_rate` of them
/// in a second, before `end_time`.
#[derive(Debug, Clone, Copy, PartialEq, Eq, Structural)]
pub struct ClockUpdate {
    /// A bit pattern.
    pub end_time: u64,
    pub buffered: usize,
    pub target_rate: u64,
    pub serial: u32,
}

/// What a sink gives when it is asked for samples.
pub struct SinkOutput {
    /// The bit patterns of the samples to play, where there are enough. Otherwise silence is
    /// played.
    pub samples: Option<Vec<u32>>,
    pub clock: Option<ClockUpdate>,
}

/// What a sink holds.
pub struct AudioSinkView {
    pub parameters: AudioParameters,
    /// The bit pattern of the time at which the last sample ends.
    pub last_pts: u64,
    /// The generation of the frame that the last sample is from.
    pub last_serial: u32,
    /// The samples that were not asked for yet, the next one first.
    pub samples: Seq<u32>,
}

impl AudioSinkView {
    /// The sink with the samples of one more frame.
    pub open spec fn extended(&self, frame: AudioFrame, serial: u32) -> AudioSinkView {
        AudioSinkView {
            last_pts: match frame.end_time {
                Some(time) => time,
                None => UNKNOWN_TIME,
            },
            last_serial: serial,
            samples: self.samples + frame.samples@,
            ..*self
        }
    }
}

/// Takes frames until there are `wanted` samples. Frames of another generation than `serial`
/// are passed over; the first frame in another form than asked for ends it. Returns whether
/// there are enough, with the sink and the queue afterwards. `table` holds the frame of each
/// slot.
pub open spec fn gathered(
    sink: AudioSinkView,
    frames: FrameQueueView,
    serial: u32,
    table: Seq<AudioFrame>,
    wanted: nat,
) -> (bool, AudioSinkView, FrameQueueView)
    decreases frames.queued.len(),
{
    if sink.samples.len() >= wanted {
        (true, sink, frames)
    } else if frames.queued.len() == 0 {
        (false, sink, frames)
    } else {
        let frame = frames.queued.first();
        let rest = frames.taken().released(frame);
        let data = table[frame.slot as int];
        if frame.serial != serial {
            gathered(sink, rest, serial, table, wanted)
        } else if !has_parameters(data, sink.parameters) {
            (false, sink, rest)
        } else {
            gathered(sink.extended(data, frame.serial), rest, serial, table, wanted)
        }
    }
}

/// A reading of `wanted` samples: those that are given out, which are all or none of them, with
/// the sink and the queue afterwards.
pub open spec fn read_out(
    sink: AudioSinkView,
    frames: FrameQueueView,
    serial: u32,
    table: Seq<AudioFrame>,
    wanted: nat,
) -> (Option<Seq<u32>>, AudioSinkView, FrameQueueView) {
    let (full, after, rest) = gathered(sink, frames, serial, table, wanted);
    if full {
        (
            Some(after.samples.take(wanted as int)),
            AudioSinkView { samples: after.samples.skip(wanted as int), ..after },
            rest,
        )
    } else {
        (None, after, rest)
    }
}

/// The samples that a reading gave out, where it gave any.
pub open spec fn given_samples(given: Option<Seq<u32>>) -> Seq<u32> {
    match given {
        Some(samples) => samples,
        None => Seq::empty(),
    }
}

/// The frame is of the stream's generation and has the form in which samples are played.
pub open spec fn is_heard(
    frame: Frame,
    serial: u32,
    table: Seq<AudioFrame>,
    parameters: AudioParameters,
) -> bool {
    frame.serial == serial && has_parameters(table[frame.slot as int], parameters)
}

/// The samples of the frames, in their order, but for those of another generation or form.
pub open spec fn heard(
    frames: Seq<Frame>,
    serial: u32,
    table: Seq<AudioFrame>,
    parameters: AudioParameters,
) -> Seq<u32>
    decreases frames.len(),
{
    if frames.len() == 0 {
        Seq::empty()
    } else {
        let earlier = heard(frames.drop_last(), serial, table, parameters);
        if is_heard(frames.last(), serial, table, parameters) {
            earlier + table[frames.last().slot as int].samples@
        } else {
            earlier
        }
    }
}

/// The samples of all the frames, in their order.
pub open spec fn all_samples(frames: Seq<Frame>, table: Seq<AudioFrame>) -> Seq<u32>
    decreases frames.len(),
{
    if frames.len() == 0 {
        Seq::empty()
    } else {
        all_samples(frames.drop_last(), table) + table[frames.last().slot as int].samples@
    }
}

/// A reading while the player is not paused: the queue and the frames in its slots at that time,
/// and how many samples are asked for.
pub struct SinkRead {
    pub frames: FrameQueueView,
    pub table: Seq<AudioFrame>,
    pub wanted: nat,
}

/// The sink after these readings.
pub open spec fn sink_after(sink: AudioSinkView, serial: u32, reads: Seq<SinkRead>) -> AudioSinkView
    decreases reads.len(),
{
    if reads.len() == 0 {
        sink
    } else {
        let last = reads.last();
        let before = sink_after(sink, serial, reads.drop_last());
        read_out(before, last.frames, serial, last.table, last.wanted).1
    }
}

/// What these readings gave out, one after the other.
pub open spec fn given_out(sink: AudioSinkView, serial: u32, reads: Seq<SinkRead>) -> Seq<u32>
    decreases reads.len(),
{
    if reads.len() == 0 {
        Seq::empty()
    } else {
        let last = reads.last();
        let before = sink_after(sink, serial, reads.drop_last());
        given_out(sink, serial, reads.drop_last()) + given_samples(
            read_out(before, last.frames, serial, last.table, last.wanted).0,
        )
    }
}

/// The frames that these readings left in the queue.
pub open spec fn left_queued(sink: AudioSinkView, serial: u32, reads: Seq<SinkRead>) -> Seq<Frame> {
    if reads.len() == 0 {
        Seq::empty()
    } else {
        let last = reads.last();
        let before = sink_after(sink, serial, reads.drop_last());
        read_out(before, last.frames, serial, last.table, last.wanted).2.queued
    }
}

/// Each reading finds the frames that the one before it left, with the same data, and behind them
/// those that were queued since.
pub open spec fn follow_each_other(sink: AudioSinkView, serial: u32, reads: Seq<SinkRead>) -> bool
    decreases reads.len(),
{
    reads.len() > 0 ==> {
        let earlier = reads.drop_last();
        let left = left_queued(sink, serial, earlier);
        &&& follow_each_other(sink, serial, earlier)
        &&& left.is_prefix_of(reads.last().frames.queued)
        &&& forall|i: int|
            0 <= i < left.len() && earlier.len() > 0 ==> reads.last().table[(
            #[trigger] left[i]).slot as int] == earlier.last().table[left[i].slot as int]
    }
}

/// The samples of the frames that were queued for these readings: those that the first one finds,
/// and those that were queued before each of the others.
pub open spec fn queued_samples(sink: AudioSinkView, serial: u32, reads: Seq<SinkRead>) -> Seq<u32>
    decreases reads.len(),
{
    if reads.len() == 0 {
        Seq::empty()
    } else {
        let earlier = reads.drop_last();
        let left = left_queued(sink, serial, earlier);
        queued_samples(sink, serial, earlier) + heard(
            reads.last().frames.queued.skip(left.len() as int),
            serial,
            reads.last().table,
            sink.parameters,
        )
    }
}

/// Collects the samples of decoded frames and gives them out in the amounts that are asked for.
pub struct AudioSink {
    parameters: AudioParameters,
    last_pts: u64,
    last_serial: u32,
    samples: Vec<u32>,
}

impl View for AudioSink {
    type V = AudioSinkView;

    closed spec fn view(&self) -> AudioSinkView {
        AudioSinkView {
            parameters: self.parameters,
            last_pts: self.last_pts,
            last_serial: self.last_serial,
            samples: self.samples@,
        }
    }
}

impl AudioSink {
    /// A sink for stereo at 48 kHz, and what to tell the thread of the stream.
    pub fn new() -> (made: (AudioSink, Option<Message>))
        ensures
            ({
                let parameters = AudioParameters { sample_rate: 48000, channels: 2 };
                &&& made.0@ == (AudioSinkView {
                    parameters,
                    last_pts: 0,
                    last_serial: 0,
                    samples: Seq::empty(),
                })
                &&& made.1 == Some(Message::UpdateParameters(parameters))
            }),
    {
        let mut sink = AudioSink {
            parameters: AudioParameters { sample_rate: 0, channels: 0 },
            last_pts: 0,
            last_serial: 0,
            samples: Vec::new(),
        };
        let message = sink.set_parameters(AudioParameters { sample_rate: 48000, channels: 2 });
        (sink, message)
    }

    /// Asks for samples in another form. Returns what to tell the thread of the stream: nothing
    /// where the form is the same.
    pub fn set_parameters(&mut self, parameters: AudioParameters) -> (message: Option<Message>)
        ensures
            final(self)@ == (AudioSinkView { parameters, ..old(self)@ }),
            message == (if parameters == old(self)@.parameters {
                None
            } else {
                Some(Message::UpdateParameters(parameters))
            }),
    {
        if self.parameters != parameters {
            self.parameters = parameters;
            Some(Message::UpdateParameters(parameters))
        } else {
            None
        }
    }

    /// The form in which samples are given out.
    pub fn parameters(&self) -> (parameters: AudioParameters)
        ensures
            parameters == self@.parameters,
    {
        self.parameters
    }

    /// The sample rate of the stream.
    pub fn sample_rate(&self, state: &DecoderState) -> (rate: u32)
        ensures
            rate == state@.audio.metadata.sample_rate,
    {
        state.audio_stream.metadata.sample_rate
    }

    /// How many channels the stream has.
    pub fn channels(&self, state: &DecoderState) -> (channels: u16)
        ensures
            channels == state@.audio.metadata.channels,
    {
        state.audio_stream.metadata.channels
    }

    /// Takes the frame of the queue's first place out, and gives its slot back.
    fn take_first(&mut self, state: &mut DecoderState) -> (frame: Option<Frame>)
        requires
            old(state).wf(),
        ensures
            final(state).wf(),
            *final(self) == *old(self),
            ({
                let frames = old(state)@.audio.frames;
                match frame {
                    Some(frame) => {
                        &&& frames.queued.len() > 0
                        &&& frame == frames.queued.first()
                        &&& frame.slot < frames.capacity
                        &&& final(state)@ == (DecoderStateView {
                            audio: StreamView {
                                frames: frames.taken().released(frame),
                                ..old(state)@.audio
                            },
                            ..old(state)@
                        })
                    },
                    None => frames.queued.len() == 0 && final(state)@ == old(state)@,
                }
            }),
    {
        match state.audio_stream.frames.try_next() {
            None => None,
            Some(frame) => {
                state.audio_stream.frames.release(frame);
                Some(frame)
            },
        }
    }

    /// Gives out `wanted` samples. `table` holds the frame of each slot of the stream's frame
    /// queue.
    pub fn read_to_slice(
        &mut self,
        state: &mut DecoderState,
        table: &Vec<AudioFrame>,
        wanted: usize,
    ) -> (output: SinkOutput)
        requires
            old(state).wf(),
            old(state)@.audio.frames.capacity <= table@.len(),
        ensures
            final(state).wf(),
            if old(state)@.play_state is Paused {
                &&& output.samples is None
                &&& output.clock is None
                &&& final(self)@ == old(self)@
                &&& final(state)@ == old(state)@
            } else {
                let (given, sink, frames) = read_out(
                    old(self)@,
                    old(state)@.audio.frames,
                    old(state)@.audio.packets.serial,
                    table@,
                    wanted as nat,
                );
                &&& final(state)@ == (DecoderStateView {
                    audio: StreamView { frames, ..old(state)@.audio },
                    ..old(state)@
                })
                &&& final(self)@ == sink
                &&& match given {
                    Some(given) => {
                        &&& output.samples matches Some(samples)
                        &&& samples@ == given
                        &&& output.clock == (if not_a_number(sink.last_pts) {
                            None
                        } else {
                            Some(
                                ClockUpdate {
                                    end_time: sink.last_pts,
                                    buffered: sink.samples.len() as usize,
                                    target_rate: (sink.parameters.sample_rate
                                        * sink.parameters.channels) as u64,
                                    serial: sink.last_serial,
                                },
                            )
                        })
                    },
                    None => output.samples is None && output.clock is None,
                }
            },
    {
        if state.play_state() == PlayState::Paused {
            return SinkOutput { samples: None, clock: None };
        }
        let ghost all = gathered(
            self@,
            state@.audio.frames,
            state@.audio.packets.serial,
            table@,
            wanted as nat,
        );
        let serial: u32 = state.audio_stream.packets.serial();
        while self.samples.len() < wanted
            invariant
                state.wf(),
                state@ == (DecoderStateView {
                    audio: StreamView { frames: state@.audio.frames, ..old(state)@.audio },
                    ..old(state)@
                }),
                serial == old(state)@.audio.packets.serial,
                state@.audio.frames.capacity <= table@.len(),
                self@.parameters == old(self)@.parameters,
                all == gathered(self@, state@.audio.frames, serial, table@, wanted as nat),
                all == gathered(
                    old(self)@,
                    old(state)@.audio.frames,
                    old(state)@.audio.packets.serial,
                    table@,
                    wanted as nat,
                ),
                !(old(state)@.play_state is Paused),
            decreases state@.audio.frames.queued.len(),
        {
            let frame = match self.take_first(state) {
                None => {
                    return SinkOutput { samples: None, clock: None };
                },
                Some(frame) => frame,
            };
            if frame.serial != serial {
                continue;
            }
            assert(frame.slot < table.len());
            let data = &table[frame.slot as usize];
            if data.rate != self.parameters.sample_rate || data.format != PACKED_FLOAT
                || data.channels != self.parameters.channels {
                return SinkOutput { samples: None, clock: None };
            }
            let ghost before = self@;
            self.last_pts = match data.end_time {
                Some(time) => time,
                None => UNKNOWN_TIME,
            };
            self.last_serial = frame.serial;
            self.samples.extend_from_slice(data.samples.as_slice());
            assert(self@.samples =~= before.samples + data.samples@);
            assert(self@ == before.extended(*data, frame.serial));
        }
        let ghost sink = self@;
        let mut samples = self.samples.split_off(wanted);
        core::mem::swap(&mut samples, &mut self.samples);
        assert(samples@ =~= sink.samples.take(wanted as int));
        assert(self@.samples =~= sink.samples.skip(wanted as int));
        let clock = if is_not_a_number(self.last_pts) {
            None
        } else {
            let rate: u64 = self.parameters.sample_rate as u64;
            let channels: u64 = self.parameters.channels as u64;
            assert(0 <= rate * channels <= 0xffff_ffff * 0xffff) by (nonlinear_arith)
                requires
                    0 <= rate <= 0xffff_ffff,
                    0 <= channels <= 0xffff,
            ;
            Some(
                ClockUpdate {
                    end_time: self.last_pts,
                    buffered: self.samples.len(),
                    target_rate: rate * channels,
                    serial: self.last_serial,
                },
            )
        };
        SinkOutput { samples: Some(samples), clock }
    }
}

/// The samples of two runs of frames are those of the first, then those of the second.
proof fn lemma_heard_of_both(
    a: Seq<Frame>,
    b: Seq<Frame>,
    serial: u32,
    table: Seq<AudioFrame>,
    parameters: AudioParameters,
)
    ensures
        heard(a + b, serial, table, parameters) == heard(a, serial, table, parameters) + heard(
            b,
            serial,
            table,
            parameters,
        ),
    decreases b.len(),
{
    if b.len() == 0 {
        assert(a + b =~= a);
    } else {
        assert((a + b).drop_last() =~= a + b.drop_last());
        assert((a + b).last() == b.last());
        lemma_heard_of_both(a, b.drop_last(), serial, table, parameters);
    }
    assert(heard(a + b, serial, table, parameters) =~= heard(a, serial, table, parameters) + heard(
        b,
        serial,
        table,
        parameters,
    ));
}

/// The samples of frames depend on the data of their own slots alone.
proof fn lemma_heard_of_same_data(
    frames: Seq<Frame>,
    serial: u32,
    a: Seq<AudioFrame>,
    b: Seq<AudioFrame>,
    parameters: AudioParameters,
)
    requires
        forall|i: int|
            0 <= i < frames.len() ==> a[(#[trigger] frames[i]).slot as int]
                == b[frames[i].slot as int],
    ensures
        heard(frames, serial, a, parameters) == heard(frames, serial, b, parameters),
    decreases frames.len(),
{
    if frames.len() > 0 {
        let earlier = frames.drop_last();
        assert forall|i: int| 0 <= i < earlier.len() implies a[(
        #[trigger] earlier[i]).slot as int] == b[earlier[i].slot as int] by {
            assert(earlier[i] == frames[i]);
        }
        lemma_heard_of_same_data(earlier, serial, a, b, parameters);
        assert(frames.last() == frames[frames.len() - 1]);
    }
}

/// Gathering takes frames from the front of the queue, gives each of their slots back, and appends
/// their samples, in order, to those that were there. Only frames of another generation or form
/// add nothing.
pub proof fn law_gathering_appends(
    sink: AudioSinkView,
    frames: FrameQueueView,
    serial: u32,
    table: Seq<AudioFrame>,
    wanted: nat,
)
    ensures
        ({
            let (full, after, rest) = gathered(sink, frames, serial, table, wanted);
            let count = frames.queued.len() - rest.queued.len();
            let taken = frames.queued.take(count);
            &&& 0 <= count <= frames.queued.len()
            &&& rest == (FrameQueueView {
                free: frames.free + all_emptied(taken),
                queued: frames.queued.skip(count),
                ..frames
            })
            &&& after.samples == sink.samples + heard(taken, serial, table, sink.parameters)
            &&& after.parameters == sink.parameters
            &&& full == (after.samples.len() >= wanted)
        }),
    decreases frames.queued.len(),
{
    let (full, after, rest) = gathered(sink, frames, serial, table, wanted);
    if sink.samples.len() >= wanted || frames.queued.len() == 0 {
        assert(frames.queued.take(0) =~= Seq::<Frame>::empty());
        assert(frames.queued.skip(0) =~= frames.queued);
        assert(frames.free + all_emptied(frames.queued.take(0)) =~= frames.free);
        assert(after.samples =~= sink.samples + heard(
            frames.queued.take(0),
            serial,
            table,
            sink.parameters,
        ));
    } else {
        let frame = frames.queued.first();
        let one = seq![frame];
        let next = frames.taken().released(frame);
        let data = table[frame.slot as int];
        let parameters = sink.parameters;
        assert(one.drop_last() =~= Seq::<Frame>::empty());
        reveal_with_fuel(heard, 2);
        assert(heard(one, serial, table, parameters) =~= if is_heard(
            frame,
            serial,
            table,
            parameters,
        ) {
            data.samples@
        } else {
            Seq::empty()
        });
        let longer = if is_heard(frame, serial, table, parameters) {
            sink.extended(data, frame.serial)
        } else {
            sink
        };
        assert(longer.samples =~= sink.samples + heard(one, serial, table, parameters));
        let count = frames.queued.len() - rest.queued.len();
        let later = if frame.serial == serial && !has_parameters(data, parameters) {
            Seq::empty()
        } else {
            law_gathering_appends(longer, next, serial, table, wanted);
            next.queued.take(next.queued.len() - rest.queued.len())
        };
        let taken = frames.queued.take(count);
        assert(taken =~= one + later);
        lemma_heard_of_both(one, later, serial, table, parameters);
        assert(after.samples =~= sink.samples + heard(taken, serial, table, parameters));
        assert(rest.queued =~= frames.queued.skip(count));
        assert(rest.free =~= frames.free + all_emptied(taken));
    }
}

/// A reading moves samples from the queue to the sink and out of it, and keeps their order: what it
/// gave out, then what the sink holds, then the samples of the frames that still wait, are what the
/// sink held and what waited before.
pub proof fn law_reading_keeps_every_sample(
    sink: AudioSinkView,
    frames: FrameQueueView,
    serial: u32,
    table: Seq<AudioFrame>,
    wanted: nat,
)
    ensures
        ({
            let (given, after, rest) = read_out(sink, frames, serial, table, wanted);
            &&& after.parameters == sink.parameters
            &&& given_samples(given) + after.samples + heard(
                rest.queued,
                serial,
                table,
                sink.parameters,
            ) == sink.samples + heard(frames.queued, serial, table, sink.parameters)
        }),
{
    law_gathering_appends(sink, frames, serial, table, wanted);
    let gathering = gathered(sink, frames, serial, table, wanted);
    let (given, after, rest) = read_out(sink, frames, serial, table, wanted);
    let count = frames.queued.len() - rest.queued.len();
    let taken = frames.queued.take(count);
    lemma_heard_of_both(taken, rest.queued, serial, table, sink.parameters);
    assert(frames.queued =~= taken + rest.queued);
    assert(given_samples(given) + after.samples =~= gathering.1.samples);
    let gone = heard(taken, serial, table, sink.parameters);
    let still = heard(rest.queued, serial, table, sink.parameters);
    assert(sink.samples + gone + still =~= sink.samples + (gone + still));
}

/// Runs of samples that account for what came before account for what comes next.
proof fn lemma_account_goes_on(
    given: Seq<u32>,
    kept: Seq<u32>,
    waiting: Seq<u32>,
    before: Seq<u32>,
    fresh: Seq<u32>,
    out: Seq<u32>,
    end: Seq<u32>,
)
    requires
        given + kept + waiting == before,
        out + end == kept + (waiting + fresh),
    ensures
        given + out + end == before + fresh,
{
    assert(given + out + end =~= given + (out + end));
    assert(given + (kept + (waiting + fresh)) =~= given + kept + waiting + fresh);
}

/// Nothing is lost, repeated or reordered over any number of readings, short ones among them: what
/// was given out, then what the sink still holds, then the samples of the frames that still wait,
/// are the samples that the sink began with, then those of the frames that were queued, in order.
pub proof fn law_readings_account_for_every_sample(
    sink: AudioSinkView,
    serial: u32,
    reads: Seq<SinkRead>,
)
    requires
        follow_each_other(sink, serial, reads),
    ensures
        sink_after(sink, serial, reads).parameters == sink.parameters,
        given_out(sink, serial, reads) + sink_after(sink, serial, reads).samples + heard(
            left_queued(sink, serial, reads),
            serial,
            reads.last().table,
            sink.parameters,
        ) == sink.samples + queued_samples(sink, serial, reads),
    decreases reads.len(),
{
    let parameters = sink.parameters;
    if reads.len() == 0 {
        assert(given_out(sink, serial, reads) + sink.samples + Seq::<u32>::empty() =~= sink.samples
            + queued_samples(sink, serial, reads));
    } else {
        let earlier = reads.drop_last();
        let last = reads.last();
        let before = sink_after(sink, serial, earlier);
        let left = left_queued(sink, serial, earlier);
        let arrived = last.frames.queued.skip(left.len() as int);
        law_readings_account_for_every_sample(sink, serial, earlier);
        law_reading_keeps_every_sample(before, last.frames, serial, last.table, last.wanted);

        // the frames that were left are still there, with the same data
        assert(last.frames.queued =~= left + arrived);
        lemma_heard_of_both(left, arrived, serial, last.table, parameters);
        lemma_heard_of_same_data(left, serial, last.table, earlier.last().table, parameters);

        let (given, after, rest) = read_out(
            before,
            last.frames,
            serial,
            last.table,
            last.wanted,
        );
        let out = given_samples(given);
        let end = after.samples + heard(rest.queued, serial, last.table, parameters);
        let fresh = heard(arrived, serial, last.table, parameters);
        let so_far = given_out(sink, serial, earlier);
        assert(out + end =~= out + after.samples + heard(
            rest.queued,
            serial,
            last.table,
            parameters,
        ));
        lemma_account_goes_on(
            so_far,
            before.samples,
            heard(left, serial, last.table, parameters),
            sink.samples + queued_samples(sink, serial, earlier),
            fresh,
            out,
            end,
        );
        assert(so_far + out + end =~= so_far + out + after.samples + heard(
            rest.queued,
            serial,
            last.table,
            parameters,
        ));
        assert(sink.samples + queued_samples(sink, serial, earlier) + fresh =~= sink.samples + (
        queued_samples(sink, serial, earlier) + fresh));
    }
}

/// Of frames that are all of the stream's generation and in the form that is played, every sample
/// is heard.
pub proof fn law_fitting_frames_are_heard_whole(
    frames: Seq<Frame>,
    serial: u32,
    table: Seq<AudioFrame>,
    parameters: AudioParameters,
)
    requires
        forall|i: int|
            0 <= i < frames.len() ==> is_heard(#[trigger] frames[i], serial, table, parameters),
    ensures
        heard(frames, serial, table, parameters) == all_samples(frames, table),
    decreases frames.len(),
{
    if frames.len() > 0 {
        let earlier = frames.drop_last();
        assert forall|i: int| 0 <= i < earlier.len() implies is_heard(
            #[trigger] earlier[i],
            serial,
            table,
            parameters,
        ) by {
            assert(earlier[i] == frames[i]);
        }
        law_fitting_frames_are_heard_whole(earlier, serial, table, parameters);
        assert(frames.last() == frames[frames.len() - 1]);
    }
}

/// Frames that were decoded before a seek are never heard after it: they leave the queue, and
/// none of their samples is kept.
pub proof fn law_outdated_frames_are_not_heard(
    sink: AudioSinkView,
    frames: FrameQueueView,
    serial: u32,
    table: Seq<AudioFrame>,
    wanted: nat,
)
    requires
        sink.samples.len() < wanted,
        forall|i: int|
            0 <= i < frames.queued.len() ==> (#[trigger] frames.queued[i]).serial != serial,
    ensures
        ({
            let (full, after, rest) = gathered(sink, frames, serial, table, wanted);
            !full && after == sink && rest.queued.len() == 0
        }),
    decreases frames.queued.len(),
{
    if frames.queued.len() > 0 {
        let frame = frames.queued.first();
        assert(frame == frames.queued[0]);
        let rest = frames.taken().released(frame);
        assert forall|i: int| 0 <= i < rest.queued.len() implies (
        #[trigger] rest.queued[i]).serial != serial by {
            assert(rest.queued[i] == frames.queued[i + 1]);
        }
        law_outdated_frames_are_not_heard(sink, rest, serial, table, wanted);
    }
}

/// Samples come out in the order in which they went in, in whatever amounts they are asked for:
/// two readings one after the other give what one reading of both amounts gives.
pub proof fn law_samples_come_out_in_order(samples: Seq<u32>, first: nat, second: nat)
    requires
        first + second <= samples.len(),
    ensures
        samples.take(first as int) + samples.skip(first as int).take(second as int)
            == samples.take((first + second) as int),
        samples.skip(first as int).skip(second as int) == samples.skip((first + second) as int),
{
    assert(samples.take(first as int) + samples.skip(first as int).take(second as int)
        =~= samples.take((first + second) as int));
    assert(samples.skip(first as int).skip(second as int) =~= samples.skip(
        (first + second) as int,
    ));
}

/// A round begins with what was held before dropped, and with everything else as it was.
pub proof fn law_rounds_begin_with_nothing_held(
    thread: AudioThread,
    state: DecoderStateView,
    event: AudioEvent,
)
    requires
        thread.phase is Round,
        state.alive,
    ensures
        ({
            let (action, after, next) = stepped(thread, state, event);
            &&& action is BeginRound
            &&& after.phase is Frames
            &&& after.selector.held is None
            &&& after.selector.skip_to == thread.selector.skip_to
            &&& after.packet_serial == thread.packet_serial
            &&& after.resampler == thread.resampler
            &&& next == state
        }),
{
}

/// While the player lives, the decoder is asked for a frame exactly where a slot is free for it;
/// without one the thread sleeps. In both cases the decoder and the resampler are flushed first
/// exactly where the queue has moved on from the generation of the last packet.
pub proof fn law_frames_are_asked_for_while_a_slot_is_free(
    thread: AudioThread,
    state: DecoderStateView,
    event: AudioEvent,
)
    requires
        thread.phase is Frames,
        state.alive,
        !(event is Answered),
    ensures
        ({
            let (action, after, next) = stepped(thread, state, event);
            let moved_on = state.audio.packets.serial != thread.packet_serial;
            &&& state.audio.frames.free.len() > 0 ==> action == (AudioAction::Receive {
                flush: moved_on,
            })
            &&& state.audio.frames.free.len() == 0 ==> action == (AudioAction::Sleep {
                flush: moved_on,
            })
            &&& after == thread
            &&& next == state
        }),
{
}

/// A decoder that is drained, with no frame held, is flushed before the next packet, whatever
/// timestamp is skipped to: it takes no packet otherwise.
pub proof fn law_drained_decoders_are_flushed(
    thread: AudioThread,
    state: DecoderStateView,
)
    requires
        thread.phase is Frames,
        thread.selector.held is None,
    ensures
        ({
            let (action, after, next) = stepped(
                thread,
                state,
                AudioEvent::Answered(Received::Eof),
            );
            &&& action is Flush
            &&& after.phase is Packets
            &&& after.selector == thread.selector
            &&& after.packet_serial == thread.packet_serial
            &&& after.resampler == thread.resampler
            &&& next == state
        }),
{
}

/// At the end of the stream a frame that is held is shown, and held no more.
pub proof fn law_held_frames_are_shown_at_the_end(
    thread: AudioThread,
    state: DecoderStateView,
)
    requires
        thread.phase is Frames,
        thread.selector.held is Some,
    ensures
        ({
            let (action, after, next) = stepped(
                thread,
                state,
                AudioEvent::Answered(Received::Eof),
            );
            &&& action is ShowHeld
            &&& after.phase is Present
            &&& after.selector.held is None
            &&& after.selector.skip_to == thread.selector.skip_to
            &&& after.packet_serial == thread.packet_serial
            &&& after.resampler == thread.resampler
            &&& next == state
        }),
{
}

/// A decoder that wants a packet is given the next one without a flush, and after an error it is
/// asked again. Neither changes what is skipped to or held.
pub proof fn law_other_answers_lead_on(
    thread: AudioThread,
    state: DecoderStateView,
)
    requires
        thread.phase is Frames,
    ensures
        ({
            let (action, after, next) = stepped(
                thread,
                state,
                AudioEvent::Answered(Received::Again),
            );
            &&& action is Proceed
            &&& after.phase is Packets
            &&& after.selector == thread.selector
            &&& after.packet_serial == thread.packet_serial
            &&& after.resampler == thread.resampler
            &&& next == state
        }),
        ({
            let (action, after, next) = stepped(
                thread,
                state,
                AudioEvent::Answered(Received::Failed),
            );
            &&& action is Drop
            &&& after == thread
            &&& next == state
        }),
{
}

/// A frame with a time before the timestamp that is skipped to is held. Any other is handed out.
pub proof fn law_frames_are_held_or_shown(
    thread: AudioThread,
    state: DecoderStateView,
    time: FrameTime,
)
    requires
        thread.phase is Frames,
    ensures
        ({
            let (action, after, next) = stepped(
                thread,
                state,
                AudioEvent::Answered(Received::Frame(Some(time))),
            );
            let before_target = match thread.selector.skip_to {
                Some(target) => time.micros < target,
                None => false,
            };
            &&& before_target ==> action is Hold && after.phase is Frames && after.selector.held
                == Some(time.pts)
            &&& !before_target ==> action is Show && after.phase is Present && after.selector.held
                is None
            &&& after.selector.skip_to == thread.selector.skip_to
            &&& after.packet_serial == thread.packet_serial
            &&& after.resampler == thread.resampler
            &&& next == state
        }),
{
}

/// A frame without a time is shown, and changes nothing before it is queued.
pub proof fn law_untimed_frames_are_shown(
    thread: AudioThread,
    state: DecoderStateView,
)
    requires
        thread.phase is Frames,
    ensures
        ({
            let (action, after, next) = stepped(
                thread,
                state,
                AudioEvent::Answered(Received::Frame(None)),
            );
            &&& action is Show
            &&& after.phase is Present
            &&& after.selector == thread.selector
            &&& after.packet_serial == thread.packet_serial
            &&& after.resampler == thread.resampler
            &&& next == state
        }),
{
}

/// A frame that is ready is queued behind the others as soon as a slot is free, in the slot that
/// was free longest, with its own timestamp and the generation of the last packet. It ends the
/// skipping.
pub proof fn law_ready_frames_are_queued_as_they_are(
    thread: AudioThread,
    state: DecoderStateView,
    timestamp: i64,
)
    requires
        thread.phase is Present,
    ensures
        ({
            let (action, after, next) = stepped(
                thread,
                state,
                AudioEvent::Ready { timestamp },
            );
            let (before, frames) = (state.audio.frames, next.audio.frames);
            &&& before.free.len() == 0 ==> action == (AudioAction::Sleep {
                flush: false,
            }) && after == thread && next == state
            &&& before.free.len() > 0 ==> {
                &&& action == AudioAction::Queue(before.free[0].slot)
                &&& frames.queued.len() == before.queued.len() + 1
                &&& frames.queued.last().timestamp == timestamp
                &&& frames.queued.last().serial == thread.packet_serial
                &&& frames.queued.last().slot == before.free[0].slot
                &&& frames.queued.drop_last() == before.queued
                &&& frames.free == before.free.skip(1)
                &&& frames.capacity == before.capacity
                &&& after.phase is Frames
                &&& after.selector.skip_to is None
                &&& after.selector.held is None
                &&& after.packet_serial == thread.packet_serial
                &&& after.resampler == thread.resampler
                &&& next.play_state == state.play_state
                &&& next.current_pts == state.current_pts
                &&& next.audio.packets == state.audio.packets
                &&& next.audio.metadata == state.audio.metadata
                &&& next.video == state.video
            }
        }),
{
    let next = stepped(thread, state, AudioEvent::Ready { timestamp }).2;
    if state.audio.frames.free.len() > 0 {
        assert(next.audio.frames.queued.drop_last() =~= state.audio.frames.queued);
        assert(next.audio.frames.free =~= state.audio.frames.free.skip(1));
    }
}

/// While a frame is to be queued, nothing but its being ready changes anything.
pub proof fn law_frames_wait_to_be_ready(
    thread: AudioThread,
    state: DecoderStateView,
    event: AudioEvent,
)
    requires
        thread.phase is Present,
        !(event is Ready),
    ensures
        stepped(thread, state, event) == (AudioAction::Proceed, thread, state),
{
}

/// The oldest packet is taken from the queue where there is one, and none other. Its own serial
/// number decides: it is decoded where that is the queue's, and a new round begins; the decoder is
/// flushed first where it is not that of the last packet. What is skipped to stays.
pub proof fn law_packets_are_taken_one_by_one(
    thread: AudioThread,
    state: DecoderStateView,
    event: AudioEvent,
)
    requires
        thread.phase is Packets,
        state.alive,
    ensures
        ({
            let (action, after, next) = stepped(thread, state, event);
            let (before, packets) = (state.audio.packets, next.audio.packets);
            &&& before.packets.len() == 0 ==> action == (AudioAction::Sleep {
                flush: false,
            }) && after == thread && next == state
            &&& before.packets.len() > 0 ==> {
                let first = before.packets[0];
                let flush = thread.packet_serial != first.serial;
                &&& first.serial == before.serial ==> action == (AudioAction::Decode {
                    packet: first,
                    flush,
                }) && after.phase is Round
                &&& first.serial != before.serial ==> action == (AudioAction::Discard {
                    packet: first,
                    flush,
                }) && after.phase is Packets
                &&& after.packet_serial == first.serial
                &&& after.selector == thread.selector
                &&& after.resampler == thread.resampler
                &&& packets.packets == before.packets.skip(1)
                &&& packets.serial == before.serial
                &&& packets.stream == before.stream
                &&& before.consistent() ==> packets.consistent()
                &&& next.audio.frames == state.audio.frames
                &&& next.audio.metadata == state.audio.metadata
                &&& next.play_state == state.play_state
                &&& next.current_pts == state.current_pts
                &&& next.metadata == state.metadata
            }
        }),
{
    let next = stepped(thread, state, event).2;
    if state.audio.packets.packets.len() > 0 {
        assert(next.audio.packets.packets =~= state.audio.packets.packets.skip(1));
        if state.audio.packets.consistent() {
            law_queue_stays_consistent(state.audio.packets, 0, 0);
        }
    }
}

/// A thread that is over stays over and touches nothing, and the player's end ends it at the
/// beginning of a round, while it asks for frames and while it waits for packets.
pub proof fn law_ended_threads_touch_nothing(
    thread: AudioThread,
    state: DecoderStateView,
    event: AudioEvent,
)
    requires
        thread.phase is Ended || !state.alive && (thread.phase is Round || thread.phase is Packets
            || thread.phase is Frames && !(event is Answered)),
    ensures
        ({
            let (action, after, next) = stepped(thread, state, event);
            &&& action is End
            &&& after.phase is Ended
            &&& next == state
        }),
{
}

/// A resampler takes the stream as it is and gives packed floats at the rate and with the channels
/// that are asked for: the mask holds that many channels, from the first on.
pub proof fn law_resamplers_take_the_stream_as_it_is(
    metadata: AudioMetadata,
    parameters: AudioParameters,
    channel: u64,
)
    requires
        parameters.channels < 64,
        channel < 64,
    ensures
        ({
            let plan = resampler_plan(metadata, parameters);
            &&& plan.in_format == metadata.format
            &&& plan.in_layout == metadata.channel_layout
            &&& plan.in_rate == metadata.sample_rate
            &&& plan.out_format == 3
            &&& plan.out_channels == parameters.channels
            &&& plan.out_rate == parameters.sample_rate
            &&& plan.out_layout >> channel & 1 == 1 <==> channel < parameters.channels
        }),
{
    let count = parameters.channels as u64;
    let mask = low_bits(parameters.channels);
    assert(1u64 << count >= 1) by (bit_vector)
        requires
            count < 64,
    ;
    assert(mask == (1u64 << count) - 1);
    assert(mask >> channel & 1 == 1 <==> channel < count) by (bit_vector)
        requires
            count < 64,
            channel < 64,
            mask == (1u64 << count) - 1,
    ;
}

/// The truncated quotient is the largest whole number of divisors in the magnitude, under the sign
/// of what is divided.
pub proof fn law_quotients_are_rounded_toward_zero(a: int, b: int)
    requires
        b > 0,
    ensures
        a >= 0 ==> 0 <= truncated_quotient(a, b) && truncated_quotient(a, b) * b <= a < (
        truncated_quotient(a, b) + 1) * b,
        a < 0 ==> truncated_quotient(a, b) <= 0 && (truncated_quotient(a, b) - 1) * b < a
            <= truncated_quotient(a, b) * b,
        truncated_quotient(-a, b) == -truncated_quotient(a, b),
{
    let magnitude = if a >= 0 {
        a
    } else {
        -a
    };
    let quotient = magnitude / b;
    assert(0 <= quotient && quotient * b <= magnitude < (quotient + 1) * b) by (nonlinear_arith)
        requires
            magnitude >= 0,
            b > 0,
            quotient == magnitude / b,
    ;
    assert((-quotient) * b == -(quotient * b)) by (nonlinear_arith);
    assert((-quotient - 1) * b == -((quotient + 1) * b)) by (nonlinear_arith);
}

/// A frame has the form in which samples are played exactly where it is of packed floats at the
/// same rate with as many channels.
pub proof fn law_form_is_rate_channels_and_packed_floats(
    frame: AudioFrame,
    parameters: AudioParameters,
)
    ensures
        has_parameters(frame, parameters) <==> frame.format == 3 && frame.rate
            == parameters.sample_rate && frame.channels == parameters.channels,
{
}

/// Gathering takes no frame that is not needed: up to the last one that it takes, the samples were
/// too few. It ends short only where the queue is empty, or with the first current frame that has
/// another form, which leaves the queue too.
pub proof fn law_gathering_takes_what_is_needed(
    sink: AudioSinkView,
    frames: FrameQueueView,
    serial: u32,
    table: Seq<AudioFrame>,
    wanted: nat,
)
    ensures
        ({
            let (full, after, rest) = gathered(sink, frames, serial, table, wanted);
            let count = frames.queued.len() - rest.queued.len();
            let parameters = sink.parameters;
            &&& 0 <= count <= frames.queued.len()
            &&& count > 0 ==> sink.samples.len() + heard(
                frames.queued.take(count - 1),
                serial,
                table,
                parameters,
            ).len() < wanted
            &&& forall|i: int|
                0 <= i < count - 1 && (#[trigger] frames.queued[i]).serial == serial
                    ==> has_parameters(table[frames.queued[i].slot as int], parameters)
            &&& full && count > 0 ==> is_heard(
                frames.queued[count - 1],
                serial,
                table,
                parameters,
            )
            &&& !full ==> rest.queued.len() == 0 || count > 0 && {
                let last = frames.queued[count - 1];
                last.serial == serial && !has_parameters(table[last.slot as int], parameters)
            }
        }),
    decreases frames.queued.len(),
{
    let (full, after, rest) = gathered(sink, frames, serial, table, wanted);
    law_gathering_appends(sink, frames, serial, table, wanted);
    let count = frames.queued.len() - rest.queued.len();
    if sink.samples.len() < wanted && frames.queued.len() > 0 {
        let frame = frames.queued.first();
        let one = seq![frame];
        let next = frames.taken().released(frame);
        let data = table[frame.slot as int];
        let parameters = sink.parameters;
        assert(one.drop_last() =~= Seq::<Frame>::empty());
        reveal_with_fuel(heard, 2);
        if frame.serial == serial && !has_parameters(data, parameters) {
            assert(frames.queued.take(0) =~= Seq::<Frame>::empty());
        } else {
            let longer = if frame.serial == serial {
                sink.extended(data, frame.serial)
            } else {
                sink
            };
            law_gathering_takes_what_is_needed(longer, next, serial, table, wanted);
            law_gathering_appends(longer, next, serial, table, wanted);
            assert forall|i: int|
                0 <= i < count - 1 && (#[trigger] frames.queued[i]).serial
                    == serial implies has_parameters(
                table[frames.queued[i].slot as int],
                parameters,
            ) by {
                if i > 0 {
                    assert(next.queued[i - 1] == frames.queued[i]);
                }
            }
            if count == 1 {
                assert(frames.queued.take(0) =~= Seq::<Frame>::empty());
            } else {
                let later = next.queued.take(count - 2);
                assert(frames.queued.take(count - 1) =~= one + later);
                lemma_heard_of_both(one, later, serial, table, parameters);
                assert(next.queued[count - 2] == frames.queued[count - 1]);
            }
        }
    }
}

/// The sink ends with the last frame that it heard: at the time that this one ends, which is no
/// number where the frame has no time, and in its generation. Without one it ends as before.
pub proof fn law_sink_ends_with_its_last_frame(
    sink: AudioSinkView,
    frames: FrameQueueView,
    serial: u32,
    table: Seq<AudioFrame>,
    wanted: nat,
    last: int,
)
    requires
        ({
            let rest = gathered(sink, frames, serial, table, wanted).2;
            let count = frames.queued.len() - rest.queued.len();
            &&& -1 <= last < count
            &&& last >= 0 ==> is_heard(frames.queued[last], serial, table, sink.parameters)
            &&& forall|i: int|
                last < i < count ==> !is_heard(
                    #[trigger] frames.queued[i],
                    serial,
                    table,
                    sink.parameters,
                )
        }),
    ensures
        ({
            let after = gathered(sink, frames, serial, table, wanted).1;
            &&& last == -1 ==> after.last_pts == sink.last_pts && after.last_serial
                == sink.last_serial
            &&& last >= 0 ==> {
                &&& after.last_serial == serial
                &&& match table[frames.queued[last].slot as int].end_time {
                    Some(time) => after.last_pts == time,
                    None => not_a_number(after.last_pts),
                }
            }
        }),
    decreases frames.queued.len(),
{
    let (full, after, rest) = gathered(sink, frames, serial, table, wanted);
    let count = frames.queued.len() - rest.queued.len();
    law_gathering_appends(sink, frames, serial, table, wanted);
    if sink.samples.len() < wanted && frames.queued.len() > 0 {
        let frame = frames.queued.first();
        let next = frames.taken().released(frame);
        let data = table[frame.slot as int];
        assert(frame == frames.queued[0]);
        if !(frame.serial == serial && !has_parameters(data, sink.parameters)) {
            let longer = if frame.serial == serial {
                sink.extended(data, frame.serial)
            } else {
                sink
            };
            law_gathering_appends(longer, next, serial, table, wanted);
            assert forall|i: int| 0 <= i < count - 1 implies #[trigger] next.queued[i]
                == frames.queued[i + 1] by {}
            let later = if last >= 1 {
                last - 1
            } else {
                -1
            };
            law_sink_ends_with_its_last_frame(longer, next, serial, table, wanted, later);
        }
    }
}

/// A reading gives out exactly as many samples as are asked for, or none: some exactly where there
/// are enough, and then the sink keeps the rest. The queue is left as gathering leaves it.
pub proof fn law_readings_give_all_or_nothing(
    sink: AudioSinkView,
    frames: FrameQueueView,
    serial: u32,
    table: Seq<AudioFrame>,
    wanted: nat,
)
    ensures
        ({
            let (given, after, rest) = read_out(sink, frames, serial, table, wanted);
            let gathering = gathered(sink, frames, serial, table, wanted);
            &&& given is Some <==> gathering.1.samples.len() >= wanted
            &&& match given {
                Some(samples) => samples.len() == wanted && after.samples.len()
                    == gathering.1.samples.len() - wanted,
                None => after.samples == gathering.1.samples,
            }
            &&& after.last_pts == gathering.1.last_pts
            &&& after.last_serial == gathering.1.last_serial
            &&& rest == gathering.2
            &&& sink.samples.len() >= wanted ==> rest == frames && given == Some(
                sink.samples.take(wanted as int),
            )
        }),
{
    law_gathering_appends(sink, frames, serial, table, wanted);
}

} // verus!
