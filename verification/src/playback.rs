//! A player of a single video stream, without sound.
use crate::decode::frame_queue::{FrameQueue, FrameQueueView};
use crate::decode::packet_queue::{
    accept_packet, law_queue_stays_consistent, packet_step, Packet, PacketQueue, PacketQueueView, PacketStep, MIN_FRAMES,
    NULL_HANDLE,
};
use crate::decode::read::{ReadEvent, ReadPhase, ReadStep, MAX_QUEUE_SIZE};
use crate::decode::selector::{FrameSelector, FrameStep, FrameTime, Received};
use crate::decode::video::{Message, Phase, PollStep, VideoAction, VideoEvent};
use crate::decode::PlayState;
use crate::error::Error;
use crate::rational::{lasts_over_a_second, Rational};
use vstd::prelude::*;

verus! {

/// What the threads share.
#[derive(Debug, Clone, Copy, PartialEq, Eq, Structural)]
pub struct PlaybackState {
    /// The threads are to go on.
    pub alive: bool,
    pub play_state: PlayState,
    /// The input is at its end.
    pub is_eof: bool,
    /// The time of the last frame that was queued and has one.
    pub current_pts: i64,
}

impl PlaybackState {
    /// The state of a player that starts to play.
    pub fn new() -> (state: PlaybackState)
        ensures
            state == (PlaybackState {
                alive: true,
                play_state: PlayState::Playing,
                is_eof: false,
                current_pts: 0,
            }),
    {
        PlaybackState { alive: true, play_state: PlayState::Playing, is_eof: false, current_pts: 0 }
    }

    /// What the player is doing.
    pub fn play_state(&self) -> (play_state: PlayState)
        ensures
            play_state == self.play_state,
    {
        self.play_state
    }

    /// Tells the threads to end.
    pub fn kill(&mut self)
        ensures
            *final(self) == (PlaybackState { alive: false, ..*old(self) }),
    {
        self.alive = false;
    }
}

/// There is nothing to read for now: the queue is full, or everything was read and shown.
pub open spec fn waits(
    state: PlaybackState,
    began: PlayState,
    packets: PacketQueueView,
    frames: FrameQueueView,
    time_base: Rational,
) -> bool {
    ||| packets.packets.len() > MAX_QUEUE_SIZE
    ||| packets.packets.len() > MIN_FRAMES && lasts_over_a_second(time_base, packets.duration)
    ||| began is Playing && state.is_eof && frames.queued.len() == 0
}

/// What the thread that reads packets does next.
#[derive(Debug, Clone, Copy, PartialEq, Eq, Structural)]
pub enum ReadAction {
    /// End.
    End,
    /// Seek for each request that came.
    Seek,
    /// Sleep 10 milliseconds.
    Sleep,
    /// Read a packet.
    Read,
    /// Drop the data of the packet unless it was queued.
    Routed { queued: bool },
}

/// The decisions of the thread that reads packets.
#[derive(Debug, Clone, Copy, PartialEq, Eq, Structural)]
pub struct ReadThread {
    pub phase: ReadPhase,
    /// The play state at the beginning of the round.
    pub play_state: PlayState,
}

/// The queue after a packet was read.
pub open spec fn after_packet(
    packets: PacketQueueView,
    stream_index: usize,
    handle: u64,
    duration: i64,
) -> PacketQueueView {
    if stream_index == packets.stream {
        packets.pushed(handle, duration)
    } else {
        packets
    }
}

/// The state and the queue after no packet could be read.
pub open spec fn after_failure(state: PlaybackState, packets: PacketQueueView, at_end: bool) -> (
    PlaybackState,
    PacketQueueView,
) {
    if !state.is_eof && at_end {
        (PlaybackState { is_eof: true, ..state }, packets.pushed(NULL_HANDLE, 0))
    } else {
        (state, packets)
    }
}

/// A step of the thread that reads: what it does next, and the thread, the state and the queue
/// after it.
pub open spec fn read_stepped(
    thread: ReadThread,
    state: PlaybackState,
    packets: PacketQueueView,
    frames: FrameQueueView,
    time_base: Rational,
    event: ReadEvent,
) -> (ReadAction, ReadThread, PlaybackState, PacketQueueView) {
    match thread.phase {
        ReadPhase::Round => if state.alive {
            (
                ReadAction::Seek,
                ReadThread { phase: ReadPhase::Decide, play_state: state.play_state },
                state,
                packets,
            )
        } else {
            (ReadAction::End, ReadThread { phase: ReadPhase::Ended, ..thread }, state, packets)
        },
        ReadPhase::Decide => if waits(state, thread.play_state, packets, frames, time_base) {
            (ReadAction::Sleep, ReadThread { phase: ReadPhase::Round, ..thread }, state, packets)
        } else {
            (ReadAction::Read, ReadThread { phase: ReadPhase::Reading, ..thread }, state, packets)
        },
        ReadPhase::Reading => match event {
            ReadEvent::Packet { stream_index, handle, duration } => (
                ReadAction::Routed { queued: stream_index == packets.stream },
                ReadThread { phase: ReadPhase::Round, ..thread },
                PlaybackState { is_eof: false, ..state },
                after_packet(packets, stream_index, handle, duration),
            ),
            ReadEvent::Failed { at_end } => (
                ReadAction::Sleep,
                ReadThread { phase: ReadPhase::Round, ..thread },
                after_failure(state, packets, at_end).0,
                after_failure(state, packets, at_end).1,
            ),
            ReadEvent::Resumed => (ReadAction::Read, thread, state, packets),
        },
        ReadPhase::Ended => (ReadAction::End, thread, state, packets),
    }
}

impl ReadThread {
    /// The decisions of a thread that has not begun its first round.
    pub fn new() -> (thread: ReadThread)
        ensures
            thread == (ReadThread { phase: ReadPhase::Round, play_state: PlayState::Playing }),
    {
        ReadThread { phase: ReadPhase::Round, play_state: PlayState::Playing }
    }

    /// What the thread does next.
    pub fn step(
        &mut self,
        state: &mut PlaybackState,
        packets: &mut PacketQueue,
        frames: &FrameQueue,
        time_base: Rational,
        event: ReadEvent,
    ) -> (action: ReadAction)
        requires
            old(packets).wf(),
            frames.wf(),
        ensures
            final(packets).wf(),
            (action, *final(self), *final(state), final(packets)@) == read_stepped(
                *old(self),
                *old(state),
                old(packets)@,
                frames@,
                time_base,
                event,
            ),
    {
        match self.phase {
            ReadPhase::Round => if self.begin_round(state) {
                self.phase = ReadPhase::Decide;
                ReadAction::Seek
            } else {
                self.phase = ReadPhase::Ended;
                ReadAction::End
            },
            ReadPhase::Decide => match self.next_step(state, packets, frames, time_base) {
                ReadStep::Wait => {
                    self.phase = ReadPhase::Round;
                    ReadAction::Sleep
                },
                ReadStep::Read => {
                    self.phase = ReadPhase::Reading;
                    ReadAction::Read
                },
            },
            ReadPhase::Reading => match event {
                ReadEvent::Packet { stream_index, handle, duration } => {
                    let queued = self.packet_read(state, packets, stream_index, handle, duration);
                    self.phase = ReadPhase::Round;
                    ReadAction::Routed { queued }
                },
                ReadEvent::Failed { at_end } => {
                    self.read_failed(state, packets, at_end);
                    self.phase = ReadPhase::Round;
                    ReadAction::Sleep
                },
                ReadEvent::Resumed => ReadAction::Read,
            },
            ReadPhase::Ended => ReadAction::End,
        }
    }

    /// Begins a round. Returns whether there is one: the thread ends with the player.
    pub fn begin_round(&mut self, state: &PlaybackState) -> (alive: bool)
        ensures
            alive == state.alive,
            *final(self) == (ReadThread {
                play_state: if alive {
                    state.play_state
                } else {
                    old(self).play_state
                },
                ..*old(self)
            }),
    {
        if state.alive {
            self.play_state = state.play_state();
        }
        state.alive
    }

    /// Takes note that the input answered a request to seek with `code`, which is zero where it
    /// sought. Returns the packets that left the queue.
    pub fn seeked(&self, state: &mut PlaybackState, packets: &mut PacketQueue, code: i32) -> (result:
        Result<Vec<Packet>, Error>)
        requires
            old(packets).wf(),
        ensures
            final(packets).wf(),
            match result {
                Ok(dropped) => {
                    &&& code == 0
                    &&& dropped@ == old(packets)@.packets
                    &&& *final(state) == (PlaybackState { is_eof: false, ..*old(state) })
                    &&& final(packets)@ == old(packets)@.flushed().pushed(NULL_HANDLE, 0)
                },
                Err(error) => {
                    &&& code != 0
                    &&& error == Error::FFmpeg(code)
                    &&& *final(state) == *old(state)
                    &&& final(packets)@ == old(packets)@
                },
            },
    {
        if code != 0 {
            return Err(Error::FFmpeg(code));
        }
        state.is_eof = false;
        let dropped = packets.flush();
        packets.push_null();
        Ok(dropped)
    }

    /// What to do next.
    pub fn next_step(
        &self,
        state: &PlaybackState,
        packets: &PacketQueue,
        frames: &FrameQueue,
        time_base: Rational,
    ) -> (step: ReadStep)
        requires
            packets.wf(),
            frames.wf(),
        ensures
            step == (if waits(*state, self.play_state, packets@, frames@, time_base) {
                ReadStep::Wait
            } else {
                ReadStep::Read
            }),
    {
        if packets.len() > MAX_QUEUE_SIZE || packets.has_enough_packets(time_base) {
            return ReadStep::Wait;
        }
        if self.play_state == PlayState::Playing && state.is_eof && frames.queued_len() == 0 {
            return ReadStep::Wait;
        }
        ReadStep::Read
    }

    /// Hands a packet that was read to the decoder, where it belongs to the stream. Returns
    /// whether it does.
    pub fn packet_read(
        &self,
        state: &mut PlaybackState,
        packets: &mut PacketQueue,
        stream_index: usize,
        handle: u64,
        duration: i64,
    ) -> (queued: bool)
        requires
            old(packets).wf(),
        ensures
            final(packets).wf(),
            *final(state) == (PlaybackState { is_eof: false, ..*old(state) }),
            queued == (stream_index == old(packets)@.stream),
            final(packets)@ == after_packet(old(packets)@, stream_index, handle, duration),
    {
        state.is_eof = false;
        if stream_index == packets.stream() {
            packets.push(handle, duration);
            true
        } else {
            false
        }
    }

    /// Takes note that no packet could be read. `at_end` says that this was for the end of the
    /// input: the decoder is told so, once.
    pub fn read_failed(&self, state: &mut PlaybackState, packets: &mut PacketQueue, at_end: bool)
        requires
            old(packets).wf(),
        ensures
            final(packets).wf(),
            (*final(state), final(packets)@) == after_failure(*old(state), old(packets)@, at_end),
    {
        if !state.is_eof && at_end {
            packets.push_null();
            state.is_eof = true;
        }
    }
}

/// The state after a frame of this time was queued. A paused player shows the frame that an
/// accurate seek led to.
pub open spec fn after_present(state: PlaybackState, selector: FrameSelector, pts: Option<i64>) ->
    PlaybackState {
    match pts {
        Some(pts) => PlaybackState {
            current_pts: pts,
            play_state: if selector.skip_to is Some && state.play_state is Paused {
                PlayState::Step
            } else {
                state.play_state
            },
            ..state
        },
        None => state,
    }
}

/// The decisions of the thread that decodes.
#[derive(Debug, Clone, Copy, PartialEq, Eq, Structural)]
pub struct VideoThread {
    pub phase: Phase,
    /// The generation of the last packet.
    pub packet_serial: u32,
    pub selector: FrameSelector,
}

/// What the thread that decodes works on.
pub struct PlaybackView {
    pub state: PlaybackState,
    pub packets: PacketQueueView,
    pub frames: FrameQueueView,
}

/// What a thread does before it asks for a frame.
pub open spec fn frame_poll(state: PlaybackState, frames: FrameQueueView) -> PollStep {
    if !state.alive {
        PollStep::End
    } else if frames.free.len() == 0 {
        PollStep::Wait
    } else {
        PollStep::Receive
    }
}

/// The thread after a frame was queued. One without a time does not end the skipping.
pub open spec fn thread_after_present(thread: VideoThread, pts: Option<i64>) -> VideoThread {
    VideoThread {
        selector: FrameSelector {
            skip_to: if pts is Some {
                None
            } else {
                thread.selector.skip_to
            },
            ..thread.selector
        },
        ..thread
    }
}

/// A step of the thread while the decoder gives frames.
pub open spec fn answered(thread: VideoThread, all: PlaybackView, received: Received) -> (
    VideoAction,
    VideoThread,
    PlaybackView,
) {
    let (step, selector) = thread.selector.selected(received, false);
    let (action, phase) = match step {
        FrameStep::Hold => (VideoAction::Hold, Phase::Frames),
        FrameStep::Drop => (VideoAction::Drop, Phase::Frames),
        FrameStep::Ignore => (VideoAction::Drop, Phase::Frames),
        FrameStep::Show(_) => (VideoAction::Show, Phase::Present),
        FrameStep::ShowHeld(_) => (VideoAction::ShowHeld, Phase::Present),
        FrameStep::FlushAndFetch => (VideoAction::Flush, Phase::Packets),
        FrameStep::Fetch => (VideoAction::Proceed, Phase::Packets),
    };
    (action, VideoThread { phase, selector, ..thread }, all)
}

/// A step of the thread while the decoder needs a packet.
pub open spec fn fetched(thread: VideoThread, all: PlaybackView) -> (
    VideoAction,
    VideoThread,
    PlaybackView,
) {
    if !all.state.alive {
        (VideoAction::End, VideoThread { phase: Phase::Ended, ..thread }, all)
    } else if all.packets.packets.len() == 0 {
        (VideoAction::Sleep, thread, all)
    } else {
        let packet = all.packets.packets.first();
        let step = packet_step(thread.packet_serial, packet, all.packets.serial);
        let taken = PlaybackView { packets: all.packets.popped(), ..all };
        if step.decode {
            (
                VideoAction::Decode { packet, flush: step.flush },
                VideoThread { phase: Phase::Round, packet_serial: packet.serial, ..thread },
                taken,
            )
        } else {
            (
                VideoAction::Discard { packet, flush: step.flush },
                VideoThread { packet_serial: packet.serial, ..thread },
                taken,
            )
        }
    }
}

/// A step of the thread that decodes: what it does next, and what there is after it.
pub open spec fn video_stepped(thread: VideoThread, all: PlaybackView, event: VideoEvent) -> (
    VideoAction,
    VideoThread,
    PlaybackView,
) {
    match thread.phase {
        Phase::Round => if all.state.alive {
            (
                VideoAction::BeginRound,
                VideoThread {
                    phase: Phase::Frames,
                    selector: FrameSelector { held: None, ..thread.selector },
                    ..thread
                },
                all,
            )
        } else {
            (VideoAction::End, VideoThread { phase: Phase::Ended, ..thread }, all)
        },
        Phase::Frames => match event {
            VideoEvent::Answered { received, behind_master, clock_serial } => answered(
                thread,
                all,
                received,
            ),
            _ => match frame_poll(all.state, all.frames) {
                PollStep::End => (
                    VideoAction::End,
                    VideoThread { phase: Phase::Ended, ..thread },
                    all,
                ),
                PollStep::Wait => (VideoAction::Sleep, thread, all),
                PollStep::Receive => (VideoAction::Receive, thread, all),
            },
        },
        Phase::Present => match event {
            VideoEvent::Ready { pts, timestamp } => if all.frames.free.len() == 0 {
                (VideoAction::Sleep, thread, all)
            } else {
                (
                    VideoAction::Queue(all.frames.free.first().slot),
                    VideoThread { phase: Phase::Frames, ..thread_after_present(thread, pts) },
                    PlaybackView {
                        state: after_present(all.state, thread.selector, pts),
                        frames: all.frames.sent(timestamp, thread.packet_serial),
                        ..all
                    },
                )
            },
            _ => (VideoAction::Proceed, thread, all),
        },
        Phase::Packets => fetched(thread, all),
        Phase::Ended => (VideoAction::End, thread, all),
    }
}

impl VideoThread {
    /// The decisions of a thread that has not begun.
    pub fn new() -> (thread: VideoThread)
        ensures
            thread == (VideoThread {
                phase: Phase::Round,
                packet_serial: 0,
                selector: FrameSelector { skip_to: None, held: None },
            }),
    {
        VideoThread { phase: Phase::Round, packet_serial: 0, selector: FrameSelector::new() }
    }

    /// What the thread does next. There is no other stream for frames to be late against.
    pub fn step(
        &mut self,
        state: &mut PlaybackState,
        packets: &mut PacketQueue,
        frames: &mut FrameQueue,
        event: VideoEvent,
    ) -> (action: VideoAction)
        requires
            old(packets).wf(),
            old(frames).wf(),
        ensures
            final(packets).wf(),
            final(frames).wf(),
            ({
                let (did, thread, all) = video_stepped(
                    *old(self),
                    PlaybackView {
                        state: *old(state),
                        packets: old(packets)@,
                        frames: old(frames)@,
                    },
                    event,
                );
                &&& action == did
                &&& *final(self) == thread
                &&& *final(state) == all.state
                &&& final(packets)@ == all.packets
                &&& final(frames)@ == all.frames
            }),
    {
        match self.phase {
            Phase::Round => if state.alive {
                self.begin_round();
                self.phase = Phase::Frames;
                VideoAction::BeginRound
            } else {
                self.phase = Phase::Ended;
                VideoAction::End
            },
            Phase::Frames => match event {
                VideoEvent::Answered { received, .. } => match self.received(received) {
                    FrameStep::Hold => VideoAction::Hold,
                    FrameStep::Drop => VideoAction::Drop,
                    FrameStep::Ignore => VideoAction::Drop,
                    FrameStep::Show(_) => {
                        self.phase = Phase::Present;
                        VideoAction::Show
                    },
                    FrameStep::ShowHeld(_) => {
                        self.phase = Phase::Present;
                        VideoAction::ShowHeld
                    },
                    FrameStep::FlushAndFetch => {
                        self.phase = Phase::Packets;
                        VideoAction::Flush
                    },
                    FrameStep::Fetch => {
                        self.phase = Phase::Packets;
                        VideoAction::Proceed
                    },
                },
                _ => match self.poll(state, frames) {
                    PollStep::End => {
                        self.phase = Phase::Ended;
                        VideoAction::End
                    },
                    PollStep::Wait => VideoAction::Sleep,
                    PollStep::Receive => VideoAction::Receive,
                },
            },
            Phase::Present => match event {
                VideoEvent::Ready { pts, timestamp } => match self.present(
                    state,
                    frames,
                    pts,
                    timestamp,
                ) {
                    Some(slot) => {
                        self.phase = Phase::Frames;
                        VideoAction::Queue(slot)
                    },
                    None => VideoAction::Sleep,
                },
                _ => VideoAction::Proceed,
            },
            Phase::Packets => if !state.alive {
                self.phase = Phase::Ended;
                VideoAction::End
            } else {
                match packets.try_receive() {
                    None => VideoAction::Sleep,
                    Some(packet) => {
                        let current: u32 = packets.serial();
                        let step = self.packet_received(packet, current);
                        if step.decode {
                            self.phase = Phase::Round;
                            VideoAction::Decode { packet, flush: step.flush }
                        } else {
                            VideoAction::Discard { packet, flush: step.flush }
                        }
                    },
                }
            },
            Phase::Ended => VideoAction::End,
        }
    }

    /// Takes note of a request.
    pub fn message(&mut self, message: Message)
        ensures
            *final(self) == (VideoThread {
                selector: FrameSelector {
                    skip_to: match message {
                        Message::SkipToTimestamp(ts) => Some(ts),
                    },
                    ..old(self).selector
                },
                ..*old(self)
            }),
    {
        match message {
            Message::SkipToTimestamp(ts) => {
                self.selector.skip_to = Some(ts);
            },
        }
    }

    /// Begins a round: what is held from the last one is dropped.
    pub fn begin_round(&mut self)
        ensures
            *final(self) == (VideoThread {
                selector: FrameSelector { held: None, ..old(self).selector },
                ..*old(self)
            }),
    {
        self.selector.held = None;
    }

    /// What to do before the decoder is asked for a frame.
    pub fn poll(&self, state: &PlaybackState, frames: &FrameQueue) -> (step: PollStep)
        requires
            frames.wf(),
        ensures
            step == frame_poll(*state, frames@),
    {
        if !state.alive {
            PollStep::End
        } else if !frames.has_free() {
            PollStep::Wait
        } else {
            PollStep::Receive
        }
    }

    /// What to do with the answer of the decoder.
    pub fn received(&mut self, received: Received) -> (step: FrameStep)
        ensures
            *final(self) == (VideoThread { selector: final(self).selector, ..*old(self) }),
            (step, final(self).selector) == old(self).selector.selected(received, false),
    {
        self.selector.select(received, false)
    }

    /// Queues a frame that is to be shown, and returns the slot to put it in. Without a free
    /// slot nothing changes.
    pub fn present(
        &mut self,
        state: &mut PlaybackState,
        frames: &mut FrameQueue,
        pts: Option<i64>,
        timestamp: i64,
    ) -> (slot: Option<u64>)
        requires
            old(frames).wf(),
        ensures
            final(frames).wf(),
            match slot {
                Some(slot) => {
                    &&& old(frames)@.free.len() > 0
                    &&& slot == old(frames)@.free.first().slot
                    &&& final(frames)@ == old(frames)@.sent(timestamp, old(self).packet_serial)
                    &&& *final(state) == after_present(*old(state), old(self).selector, pts)
                    &&& *final(self) == thread_after_present(*old(self), pts)
                },
                None => {
                    &&& old(frames)@.free.len() == 0
                    &&& final(frames)@ == old(frames)@
                    &&& *final(state) == *old(state)
                    &&& *final(self) == *old(self)
                },
            },
    {
        match frames.send(timestamp, self.packet_serial) {
            None => None,
            Some(slot) => {
                if let Some(pts) = pts {
                    state.current_pts = pts;
                    if self.selector.skip_to.is_some() {
                        self.selector.skip_to = None;
                        if state.play_state() == PlayState::Paused {
                            state.play_state = PlayState::Step;
                        }
                    }
                }
                Some(slot)
            },
        }
    }

    /// What to do with a packet, while the queue is at the generation `queue_serial`.
    pub fn packet_received(&mut self, packet: Packet, queue_serial: u32) -> (step: PacketStep)
        ensures
            step == packet_step(old(self).packet_serial, packet, queue_serial),
            *final(self) == (VideoThread { packet_serial: packet.serial, ..*old(self) }),
    {
        accept_packet(&mut self.packet_serial, packet, queue_serial)
    }
}

/// A frame without a time neither moves the position nor makes a paused player step.
pub proof fn law_untimed_frames_change_nothing(state: PlaybackState, selector: FrameSelector)
    ensures
        after_present(state, selector, None) == state,
{
}

/// When the player ends, the thread that reads ends with its round, and the thread that decodes
/// ends wherever in its round it is, unless it has a frame to queue first.
pub proof fn law_threads_end_with_the_player(
    reader: ReadThread,
    decoder: VideoThread,
    all: PlaybackView,
    time_base: Rational,
)
    requires
        !all.state.alive,
        reader.phase is Round,
        !(decoder.phase is Present),
    ensures
        read_stepped(
            reader,
            all.state,
            all.packets,
            all.frames,
            time_base,
            ReadEvent::Resumed,
        ).0 is End,
        video_stepped(decoder, all, VideoEvent::Resumed).0 is End,
{
}

/// Only packets of the generation that the queue is at are decoded, in the order in which they
/// were read, and none of that generation is dropped.
pub proof fn law_current_packets_are_decoded(
    thread: VideoThread,
    all: PlaybackView,
    event: VideoEvent,
)
    requires
        all.packets.consistent(),
    ensures
        ({
            let (action, after, next) = video_stepped(thread, all, event);
            &&& action matches VideoAction::Decode { packet, flush } ==> {
                &&& packet == all.packets.packets.first()
                &&& packet.serial == all.packets.serial
                &&& flush == (packet.serial != thread.packet_serial)
                &&& after.packet_serial == packet.serial
            }
            &&& !(action is Discard)
        }),
{
    if all.packets.packets.len() > 0 {
        assert(all.packets.packets[0] == all.packets.packets.first());
    }
}

/// A round begins with what was held before dropped, and with everything else as it was.
pub proof fn law_rounds_begin_with_nothing_held(
    thread: VideoThread,
    all: PlaybackView,
    event: VideoEvent,
)
    requires
        thread.phase is Round,
        all.state.alive,
    ensures
        ({
            let (action, after, next) = video_stepped(thread, all, event);
            &&& action is BeginRound
            &&& after.phase is Frames
            &&& after.selector.held is None
            &&& after.selector.skip_to == thread.selector.skip_to
            &&& after.packet_serial == thread.packet_serial
            &&& next == all
        }),
{
}

/// While the player lives, the decoder is asked for a frame exactly where a slot is free for it;
/// without one the thread sleeps. Neither changes anything.
pub proof fn law_frames_are_asked_for_while_a_slot_is_free(
    thread: VideoThread,
    all: PlaybackView,
    event: VideoEvent,
)
    requires
        thread.phase is Frames,
        all.state.alive,
        !(event is Answered),
    ensures
        ({
            let (action, after, next) = video_stepped(thread, all, event);
            &&& action is Receive <==> all.frames.free.len() > 0
            &&& action is Sleep <==> all.frames.free.len() == 0
            &&& after == thread
            &&& next == all
        }),
{
}

/// A decoder that is drained, with no frame held, is flushed before the next packet, whatever
/// timestamp is skipped to: it takes no packet otherwise.
pub proof fn law_drained_decoders_are_flushed(
    thread: VideoThread,
    all: PlaybackView,
    behind_master: bool,
    clock_serial: u32,
)
    requires
        thread.phase is Frames,
        thread.selector.held is None,
    ensures
        ({
            let (action, after, next) = video_stepped(
                thread,
                all,
                VideoEvent::Answered { received: Received::Eof, behind_master, clock_serial },
            );
            &&& action is Flush
            &&& after.phase is Packets
            &&& after.selector == thread.selector
            &&& after.packet_serial == thread.packet_serial
            &&& next == all
        }),
{
}

/// At the end of the stream a frame that is held is shown, and held no more.
pub proof fn law_held_frames_are_shown_at_the_end(
    thread: VideoThread,
    all: PlaybackView,
    behind_master: bool,
    clock_serial: u32,
)
    requires
        thread.phase is Frames,
        thread.selector.held is Some,
    ensures
        ({
            let (action, after, next) = video_stepped(
                thread,
                all,
                VideoEvent::Answered { received: Received::Eof, behind_master, clock_serial },
            );
            &&& action is ShowHeld
            &&& after.phase is Present
            &&& after.selector.held is None
            &&& after.selector.skip_to == thread.selector.skip_to
            &&& after.packet_serial == thread.packet_serial
            &&& next == all
        }),
{
}

/// A decoder that wants a packet is given the next one without a flush, and after an error it is
/// asked again. Neither changes what is skipped to or held.
pub proof fn law_other_answers_lead_on(
    thread: VideoThread,
    all: PlaybackView,
    behind_master: bool,
    clock_serial: u32,
)
    requires
        thread.phase is Frames,
    ensures
        ({
            let (action, after, next) = video_stepped(
                thread,
                all,
                VideoEvent::Answered { received: Received::Again, behind_master, clock_serial },
            );
            &&& action is Proceed
            &&& after.phase is Packets
            &&& after.selector == thread.selector
            &&& after.packet_serial == thread.packet_serial
            &&& next == all
        }),
        ({
            let (action, after, next) = video_stepped(
                thread,
                all,
                VideoEvent::Answered { received: Received::Failed, behind_master, clock_serial },
            );
            &&& action is Drop
            &&& after == thread
            &&& next == all
        }),
{
}

/// A frame with a time before the timestamp that is skipped to is held. Any other is shown: there
/// is nothing to be late against.
pub proof fn law_frames_are_held_or_shown(
    thread: VideoThread,
    all: PlaybackView,
    time: FrameTime,
    behind_master: bool,
    clock_serial: u32,
)
    requires
        thread.phase is Frames,
    ensures
        ({
            let (action, after, next) = video_stepped(
                thread,
                all,
                VideoEvent::Answered {
                    received: Received::Frame(Some(time)),
                    behind_master,
                    clock_serial,
                },
            );
            let before_target = match thread.selector.skip_to {
                Some(target) => time.micros < target,
                None => false,
            };
            &&& before_target ==> action is Hold && after.phase is Frames && after.selector.held
                == Some(time.pts)
            &&& !before_target ==> action is Show && after.phase is Present && after.selector.held
                is None
            &&& after.selector.skip_to == thread.selector.skip_to
            &&& after.packet_serial == thread.packet_serial
            &&& next == all
        }),
{
}

/// A frame without a time is shown, and changes nothing before it is queued.
pub proof fn law_untimed_frames_are_shown(
    thread: VideoThread,
    all: PlaybackView,
    behind_master: bool,
    clock_serial: u32,
)
    requires
        thread.phase is Frames,
    ensures
        ({
            let (action, after, next) = video_stepped(
                thread,
                all,
                VideoEvent::Answered {
                    received: Received::Frame(None),
                    behind_master,
                    clock_serial,
                },
            );
            &&& action is Show
            &&& after.phase is Present
            &&& after.selector == thread.selector
            &&& after.packet_serial == thread.packet_serial
            &&& next == all
        }),
{
}

/// A frame that is ready is queued behind the others as soon as a slot is free, in the slot that
/// was free longest, with its own timestamp and the generation of the last packet. It ends the
/// skipping where it has a time.
pub proof fn law_ready_frames_are_queued_as_they_are(
    thread: VideoThread,
    all: PlaybackView,
    pts: Option<i64>,
    timestamp: i64,
)
    requires
        thread.phase is Present,
    ensures
        ({
            let (action, after, next) = video_stepped(
                thread,
                all,
                VideoEvent::Ready { pts, timestamp },
            );
            let (before, frames) = (all.frames, next.frames);
            &&& before.free.len() == 0 ==> action is Sleep && after == thread && next == all
            &&& before.free.len() > 0 ==> {
                &&& action == VideoAction::Queue(before.free[0].slot)
                &&& frames.queued.len() == before.queued.len() + 1
                &&& frames.queued.last().timestamp == timestamp
                &&& frames.queued.last().serial == thread.packet_serial
                &&& frames.queued.last().slot == before.free[0].slot
                &&& frames.queued.drop_last() == before.queued
                &&& frames.free == before.free.skip(1)
                &&& frames.capacity == before.capacity
                &&& after.phase is Frames
                &&& after.selector.skip_to == (if pts is Some {
                    None
                } else {
                    thread.selector.skip_to
                })
                &&& after.selector.held == thread.selector.held
                &&& next.packets == all.packets
                &&& after.packet_serial == thread.packet_serial
            }
        }),
{
    let next = video_stepped(thread, all, VideoEvent::Ready { pts, timestamp }).2;
    if all.frames.free.len() > 0 {
        assert(next.frames.queued.drop_last() =~= all.frames.queued);
        assert(next.frames.free =~= all.frames.free.skip(1));
    }
}

/// While a frame is to be queued, nothing but its being ready changes anything.
pub proof fn law_frames_wait_to_be_ready(
    thread: VideoThread,
    all: PlaybackView,
    event: VideoEvent,
)
    requires
        thread.phase is Present,
        !(event is Ready),
    ensures
        video_stepped(thread, all, event) == (VideoAction::Proceed, thread, all),
{
}

/// The oldest packet is taken from the queue where there is one, and none other. Its own serial
/// number decides: it is decoded where that is the queue's, and a new round begins; the decoder is
/// flushed first where it is not that of the last packet. What is skipped to stays.
pub proof fn law_packets_are_taken_one_by_one(
    thread: VideoThread,
    all: PlaybackView,
    event: VideoEvent,
)
    requires
        thread.phase is Packets,
        all.state.alive,
    ensures
        ({
            let (action, after, next) = video_stepped(thread, all, event);
            let (before, packets) = (all.packets, next.packets);
            &&& before.packets.len() == 0 ==> action is Sleep && after == thread && next == all
            &&& before.packets.len() > 0 ==> {
                let first = before.packets[0];
                let flush = thread.packet_serial != first.serial;
                &&& first.serial == before.serial ==> action == (VideoAction::Decode {
                    packet: first,
                    flush,
                }) && after.phase is Round
                &&& first.serial != before.serial ==> action == (VideoAction::Discard {
                    packet: first,
                    flush,
                }) && after.phase is Packets
                &&& after.packet_serial == first.serial
                &&& after.selector == thread.selector
                &&& packets.packets == before.packets.skip(1)
                &&& packets.serial == before.serial
                &&& packets.stream == before.stream
                &&& before.consistent() ==> packets.consistent()
                &&& next.frames == all.frames
                &&& next.state == all.state
            }
        }),
{
    let next = video_stepped(thread, all, event).2;
    if all.packets.packets.len() > 0 {
        assert(next.packets.packets =~= all.packets.packets.skip(1));
        if all.packets.consistent() {
            law_queue_stays_consistent(all.packets, 0, 0);
        }
    }
}

/// A thread that is over stays over and touches nothing, and the player's end ends it at the
/// beginning of a round, while it asks for frames and while it waits for packets.
pub proof fn law_ended_threads_touch_nothing(
    thread: VideoThread,
    all: PlaybackView,
    event: VideoEvent,
)
    requires
        thread.phase is Ended || !all.state.alive && (thread.phase is Round || thread.phase is Packets
            || thread.phase is Frames && !(event is Answered)),
    ensures
        ({
            let (action, after, next) = video_stepped(thread, all, event);
            &&& action is End
            &&& after.phase is Ended
            &&& next == all
        }),
{
}

/// A queued frame tells the position where it has a time, and makes a paused player step exactly
/// where it has one and ends an accurate seek. Nothing else of the player is changed.
pub proof fn law_queued_frames_tell_the_position(
    thread: VideoThread,
    all: PlaybackView,
    pts: Option<i64>,
    timestamp: i64,
)
    requires
        thread.phase is Present,
        all.frames.free.len() > 0,
    ensures
        ({
            let next = video_stepped(thread, all, VideoEvent::Ready { pts, timestamp }).2.state;
            let before = all.state;
            &&& match pts {
                Some(pts) => next.current_pts == pts,
                None => next.current_pts == before.current_pts,
            }
            &&& before.play_state is Paused && pts is Some && thread.selector.skip_to is Some
                ==> next.play_state is Step
            &&& !(before.play_state is Paused) || pts is None || thread.selector.skip_to is None
                ==> next.play_state == before.play_state
            &&& next.alive == before.alive
            &&& next.is_eof == before.is_eof
        }),
{
}

/// A packet of the stream comes last in the queue, with its own length and the queue's generation;
/// one of another stream is dropped. Either way the input is not at its end any more, and a new
/// round begins.
pub proof fn law_packets_are_queued_as_they_were_read(
    thread: ReadThread,
    all: PlaybackView,
    time_base: Rational,
    stream_index: usize,
    handle: u64,
    duration: i64,
)
    requires
        thread.phase is Reading,
    ensures
        ({
            let (action, after, state, packets) = read_stepped(
                thread,
                all.state,
                all.packets,
                all.frames,
                time_base,
                ReadEvent::Packet { stream_index, handle, duration },
            );
            let ours = stream_index == all.packets.stream;
            &&& action == (ReadAction::Routed { queued: ours })
            &&& after.phase is Round
            &&& after.play_state == thread.play_state
            &&& !state.is_eof
            &&& state.alive == all.state.alive
            &&& state.play_state == all.state.play_state
            &&& state.current_pts == all.state.current_pts
            &&& !ours ==> packets == all.packets
            &&& ours ==> {
                &&& packets.packets.len() == all.packets.packets.len() + 1
                &&& packets.packets.drop_last() == all.packets.packets
                &&& packets.packets.last().handle == handle
                &&& packets.packets.last().duration == duration
                &&& packets.packets.last().serial == all.packets.serial
                &&& packets.serial == all.packets.serial
                &&& all.packets.consistent() ==> packets.consistent()
            }
        }),
{
    let packets = read_stepped(
        thread,
        all.state,
        all.packets,
        all.frames,
        time_base,
        ReadEvent::Packet { stream_index, handle, duration },
    ).3;
    if stream_index == all.packets.stream {
        assert(packets.packets.drop_last() =~= all.packets.packets);
        if all.packets.consistent() {
            law_queue_stays_consistent(all.packets, handle, duration);
        }
    }
}

/// A null packet comes last in the queue where the input is found to be at its end for the first
/// time; a failure of any other kind changes nothing. The thread sleeps and begins a new round.
pub proof fn law_failures_tell_the_end(
    thread: ReadThread,
    all: PlaybackView,
    time_base: Rational,
    at_end: bool,
)
    requires
        thread.phase is Reading,
    ensures
        ({
            let (action, after, state, packets) = read_stepped(
                thread,
                all.state,
                all.packets,
                all.frames,
                time_base,
                ReadEvent::Failed { at_end },
            );
            &&& action is Sleep
            &&& after.phase is Round
            &&& after.play_state == thread.play_state
            &&& !at_end || all.state.is_eof ==> state == all.state && packets == all.packets
            &&& at_end && !all.state.is_eof ==> {
                &&& state.is_eof
                &&& state.alive == all.state.alive
                &&& state.play_state == all.state.play_state
                &&& state.current_pts == all.state.current_pts
                &&& packets.packets == all.packets.packets.push(
                    Packet { handle: 0, duration: 0, serial: all.packets.serial },
                )
                &&& packets.duration == all.packets.duration
                &&& packets.serial == all.packets.serial
            }
        }),
{
}

/// A round begins with what the player is doing at that time, and with the requests that came. The
/// thread then waits exactly where 15 * 1024 * 1024 packets are exceeded, where more than 25 packets
/// last for over a second, or where a round that began while playing finds everything read and
/// shown. None of this changes the player.
pub proof fn law_reader_waits_only_when_there_is_enough(
    thread: ReadThread,
    all: PlaybackView,
    time_base: Rational,
    event: ReadEvent,
)
    requires
        thread.phase is Round && all.state.alive || thread.phase is Decide,
        time_base.den > 0,
    ensures
        ({
            let (action, after, state, packets) = read_stepped(
                thread,
                all.state,
                all.packets,
                all.frames,
                time_base,
                event,
            );
            let count = all.packets.packets.len();
            let too_many = count > 15 * 1024 * 1024;
            let is_full = count > 25 && all.packets.duration * time_base.num > time_base.den;
            let all_shown = all.state.is_eof && all.frames.queued.len() == 0 && thread.play_state
                == PlayState::Playing;
            &&& thread.phase is Round ==> action is Seek && after.phase is Decide
                && after.play_state == all.state.play_state
            &&& thread.phase is Decide ==> {
                &&& action is Sleep <==> too_many || is_full || all_shown
                &&& action is Sleep ==> after.phase is Round
                &&& !(action is Sleep) ==> action is Read && after.phase is Reading
                &&& after.play_state == thread.play_state
            }
            &&& state == all.state
            &&& packets == all.packets
        }),
{
    assert(all.packets.duration * time_base.num == time_base.num * all.packets.duration)
        by (nonlinear_arith);
}

} // verus!
