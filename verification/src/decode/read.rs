//! The thread that reads packets from the input and hands them to the decoders.
use crate::decode::clock::Clock;
use crate::decode::frame_queue::Frame;
use crate::decode::packet_queue::{law_queue_stays_consistent, Packet, MIN_FRAMES, NULL_HANDLE};
use crate::decode::{DecoderState, DecoderStateView, PlayState, StreamView};
use crate::error::Error;
use crate::rational::{lasts_over_a_second, Rational};
use crate::video::SeekMode;
use vstd::prelude::*;

verus! {

/// With more packets than this in the queues together, none is read.
pub const MAX_QUEUE_SIZE: usize = 15728640;

/// What is known of an input as a whole.
#[derive(Debug, Clone, Copy, PartialEq, Eq, Structural)]
pub struct Metadata {
    /// How long it plays, in nanoseconds.
    pub duration: u128,
}

/// A request to the thread.
#[derive(Debug, Clone, Copy, PartialEq, Eq, Structural)]
pub enum ReadMessage {
    /// Go on at the timestamp, in microseconds.
    SeekStream { ts: i64, mode: SeekMode },
}

/// What to do after a seek.
pub struct Seeked {
    /// The timestamp that both decoders are to skip to.
    pub skip_to: Option<i64>,
    /// The packets that left the queue of the video stream.
    pub dropped_video: Vec<Packet>,
    /// The packets that left the queue of the audio stream.
    pub dropped_audio: Vec<Packet>,
}

/// What to do in a round of the thread.
#[derive(Debug, Clone, Copy, PartialEq, Eq, Structural)]
pub enum ReadStep {
    /// Sleep 10 milliseconds.
    Wait,
    /// Read a packet.
    Read,
}

/// Where a packet went.
#[derive(Debug, Clone, Copy, PartialEq, Eq, Structural)]
pub enum Route {
    Video,
    Audio,
    /// The packet belongs to neither stream.
    Discarded,
}

/// Where a packet of the stream of this index goes: the video stream is asked first.
pub open spec fn route_of(state: DecoderStateView, index: usize) -> Route {
    if index == state.video.metadata.index {
        Route::Video
    } else if index == state.audio.metadata.index {
        Route::Audio
    } else {
        Route::Discarded
    }
}

/// The state after a packet was read.
pub open spec fn after_packet(
    state: DecoderStateView,
    index: usize,
    handle: u64,
    duration: i64,
) -> DecoderStateView {
    let route = route_of(state, index);
    DecoderStateView {
        is_eof: false,
        video: if route is Video {
            StreamView { packets: state.video.packets.pushed(handle, duration), ..state.video }
        } else {
            state.video
        },
        audio: if route is Audio {
            StreamView { packets: state.audio.packets.pushed(handle, duration), ..state.audio }
        } else {
            state.audio
        },
        ..state
    }
}

/// The state after the input sought, in a round that began in the play state `began`.
pub open spec fn after_seek(state: DecoderStateView, began: PlayState) -> DecoderStateView {
    DecoderStateView {
        is_eof: false,
        video: state.video.restarted(),
        audio: state.audio.restarted(),
        play_state: if began is Paused {
            PlayState::Step
        } else {
            state.play_state
        },
        ..state
    }
}

/// The timestamp that the decoders skip to after a seek: that of an accurate one.
pub open spec fn skip_of(message: ReadMessage) -> Option<i64> {
    match message {
        ReadMessage::SeekStream { ts, mode } => if mode is Accurate {
            Some(ts)
        } else {
            None
        },
    }
}

/// The state with a null packet at the end of both queues.
pub open spec fn with_nulls(state: DecoderStateView) -> DecoderStateView {
    DecoderStateView { video: state.video.with_null(), audio: state.audio.with_null(), ..state }
}

/// The state after no packet could be read. `at_end` says that this was for the end of the
/// input.
pub open spec fn after_failure(state: DecoderStateView, at_end: bool) -> DecoderStateView {
    if !state.is_eof && at_end {
        DecoderStateView { is_eof: true, ..with_nulls(state) }
    } else {
        state
    }
}

/// The stream has more than enough packets: their number is over the minimum, and they last for
/// over a second.
pub open spec fn is_full<M>(stream: StreamView<M>, time_base: Rational) -> bool {
    stream.packets.packets.len() > MIN_FRAMES && lasts_over_a_second(
        time_base,
        stream.packets.duration,
    )
}

/// There is nothing to read for now: the queues are full, or everything was read and shown.
pub open spec fn waits(state: DecoderStateView, began: PlayState) -> bool {
    ||| state.video.packets.packets.len() + state.audio.packets.packets.len() > MAX_QUEUE_SIZE
    ||| is_full(state.video, state.video.metadata.time_base) && is_full(
        state.audio,
        state.audio.metadata.time_base,
    )
    ||| began is Playing && state.is_eof && state.video.frames.queued.len() == 0
}

/// Where in its round the thread is.
#[derive(Debug, Clone, Copy, PartialEq, Eq, Structural)]
pub enum ReadPhase {
    /// A round begins.
    Round,
    /// Requests were dealt with.
    Decide,
    /// A packet is read.
    Reading,
    /// The thread is over.
    Ended,
}

/// What happened since the last step of the thread.
#[derive(Debug, Clone, Copy, PartialEq, Eq, Structural)]
pub enum ReadEvent {
    /// The last action was done.
    Resumed,
    /// A packet of this stream was read.
    Packet { stream_index: usize, handle: u64, duration: i64 },
    /// No packet could be read; `at_end` says that this was for the end of the input.
    Failed { at_end: bool },
}

/// What the thread does next.
#[derive(Debug, Clone, Copy, PartialEq, Eq, Structural)]
pub enum ReadAction {
    /// End.
    End,
    /// Seek for each request that came.
    Seek,
    /// Sleep 10 milliseconds.
    Sleep,
    /// Read a packet.
    Read,
    /// Drop the data of the packet where it was discarded.
    Routed(Route),
}

/// The decisions of the thread that reads.
#[derive(Debug, Clone, Copy, PartialEq, Eq, Structural)]
pub struct ReadThread {
    pub phase: ReadPhase,
    /// The play state at the beginning of the round.
    pub play_state: PlayState,
}

/// A step of the thread: what it does next, and the thread and the state after it.
pub open spec fn stepped(thread: ReadThread, state: DecoderStateView, event: ReadEvent) -> (
    ReadAction,
    ReadThread,
    DecoderStateView,
) {
    match thread.phase {
        ReadPhase::Round => if state.alive {
            (
                ReadAction::Seek,
                ReadThread { phase: ReadPhase::Decide, play_state: state.play_state },
                state,
            )
        } else {
            (
                ReadAction::End,
                ReadThread { phase: ReadPhase::Ended, ..thread },
                with_nulls(state),
            )
        },
        ReadPhase::Decide => if waits(state, thread.play_state) {
            (ReadAction::Sleep, ReadThread { phase: ReadPhase::Round, ..thread }, state)
        } else {
            (ReadAction::Read, ReadThread { phase: ReadPhase::Reading, ..thread }, state)
        },
        ReadPhase::Reading => match event {
            ReadEvent::Packet { stream_index, handle, duration } => (
                ReadAction::Routed(route_of(state, stream_index)),
                ReadThread { phase: ReadPhase::Round, ..thread },
                after_packet(state, stream_index, handle, duration),
            ),
            ReadEvent::Failed { at_end } => (
                ReadAction::Sleep,
                ReadThread { phase: ReadPhase::Round, ..thread },
                after_failure(state, at_end),
            ),
            ReadEvent::Resumed => (ReadAction::Read, thread, state),
        },
        ReadPhase::Ended => (ReadAction::End, thread, state),
    }
}

impl ReadThread {
    /// The decisions of a thread that has not begun its first round.
    pub fn new() -> (thread: ReadThread)
        ensures
            thread == (ReadThread { phase: ReadPhase::Round, play_state: PlayState::Playing }),
    {
        ReadThread { phase: ReadPhase::Round, play_state: PlayState::Playing }
    }

    /// What the thread does next.
    pub fn step(&mut self, state: &mut DecoderState, event: ReadEvent) -> (action: ReadAction)
        requires
            old(state).wf(),
        ensures
            final(state).wf(),
            (action, *final(self), final(state)@) == stepped(*old(self), old(state)@, event),
    {
        match self.phase {
            ReadPhase::Round => if self.begin_round(state) {
                self.phase = ReadPhase::Decide;
                ReadAction::Seek
            } else {
                self.finish(state);
                self.phase = ReadPhase::Ended;
                ReadAction::End
            },
            ReadPhase::Decide => match self.next_step(state) {
                ReadStep::Wait => {
                    self.phase = ReadPhase::Round;
                    ReadAction::Sleep
                },
                ReadStep::Read => {
                    self.phase = ReadPhase::Reading;
                    ReadAction::Read
                },
            },
            ReadPhase::Reading => match event {
                ReadEvent::Packet { stream_index, handle, duration } => {
                    let route = self.packet_read(state, stream_index, handle, duration);
                    self.phase = ReadPhase::Round;
                    ReadAction::Routed(route)
                },
                ReadEvent::Failed { at_end } => {
                    self.read_failed(state, at_end);
                    self.phase = ReadPhase::Round;
                    ReadAction::Sleep
                },
                ReadEvent::Resumed => ReadAction::Read,
            },
            ReadPhase::Ended => ReadAction::End,
        }
    }

    /// Begins a round. Returns whether there is one: the thread ends with the player.
    pub fn begin_round(&mut self, state: &DecoderState) -> (alive: bool)
        ensures
            alive == state@.alive,
            *final(self) == (ReadThread {
                play_state: if alive {
                    state@.play_state
                } else {
                    old(self).play_state
                },
                ..*old(self)
            }),
    {
        if state.alive {
            self.play_state = state.play_state();
        }
        state.alive
    }

    /// Takes note that the input answered a request with `code`, which is zero where it sought.
    pub fn seeked(&self, state: &mut DecoderState, message: ReadMessage, code: i32) -> (result:
        Result<Seeked, Error>)
        requires
            old(state).wf(),
        ensures
            final(state).wf(),
            match result {
                Ok(seeked) => {
                    &&& code == 0
                    &&& final(state)@ == after_seek(old(state)@, self.play_state)
                    &&& seeked.skip_to == skip_of(message)
                    &&& seeked.dropped_video@ == old(state)@.video.packets.packets
                    &&& seeked.dropped_audio@ == old(state)@.audio.packets.packets
                },
                Err(error) => {
                    &&& code != 0
                    &&& error == Error::FFmpeg(code)
                    &&& final(state)@ == old(state)@
                },
            },
    {
        if code != 0 {
            return Err(Error::FFmpeg(code));
        }
        state.is_eof = false;
        let dropped_video = state.video_stream.packets.flush();
        state.video_stream.packets.push_null();
        let dropped_audio = state.audio_stream.packets.flush();
        state.audio_stream.packets.push_null();
        let skip_to = match message {
            ReadMessage::SeekStream { ts, mode } => match mode {
                SeekMode::Accurate => Some(ts),
                SeekMode::Fast => None,
            },
        };
        if self.play_state == PlayState::Paused {
            state.play_state = PlayState::Step;
        }
        Ok(Seeked { skip_to, dropped_video, dropped_audio })
    }

    /// What to do next.
    pub fn next_step(&self, state: &DecoderState) -> (step: ReadStep)
        requires
            state.wf(),
        ensures
            step == (if waits(state@, self.play_state) {
                ReadStep::Wait
            } else {
                ReadStep::Read
            }),
    {
        let video = &state.video_stream;
        let audio = &state.audio_stream;
        let queued: u128 = video.packets.len() as u128 + audio.packets.len() as u128;
        if queued > MAX_QUEUE_SIZE as u128 || (video.packets.has_enough_packets(
            video.metadata.time_base,
        ) && audio.packets.has_enough_packets(audio.metadata.time_base)) {
            return ReadStep::Wait;
        }
        if self.play_state == PlayState::Playing && state.is_eof && video.frames.queued_len() == 0 {
            return ReadStep::Wait;
        }
        ReadStep::Read
    }

    /// Hands a packet that was read to the decoder of its stream.
    pub fn packet_read(
        &self,
        state: &mut DecoderState,
        stream_index: usize,
        handle: u64,
        duration: i64,
    ) -> (route: Route)
        requires
            old(state).wf(),
        ensures
            final(state).wf(),
            route == route_of(old(state)@, stream_index),
            final(state)@ == after_packet(old(state)@, stream_index, handle, duration),
    {
        state.is_eof = false;
        if stream_index == state.video_stream.metadata.index {
            state.video_stream.packets.push(handle, duration);
            Route::Video
        } else if stream_index == state.audio_stream.metadata.index {
            state.audio_stream.packets.push(handle, duration);
            Route::Audio
        } else {
            Route::Discarded
        }
    }

    /// Takes note that no packet could be read. `at_end` says that this was for the end of the
    /// input: both decoders are told so, once.
    pub fn read_failed(&self, state: &mut DecoderState, at_end: bool)
        requires
            old(state).wf(),
        ensures
            final(state).wf(),
            final(state)@ == after_failure(old(state)@, at_end),
    {
        if !state.is_eof && at_end {
            state.video_stream.packets.push_null();
            state.audio_stream.packets.push_null();
            state.is_eof = true;
        }
    }

    /// Wakes both decoders up when the thread ends, for them to see that the player ended.
    pub fn finish(&self, state: &mut DecoderState)
        requires
            old(state).wf(),
        ensures
            final(state).wf(),
            final(state)@ == with_nulls(old(state)@),
    {
        state.video_stream.packets.push_null();
        state.audio_stream.packets.push_null();
    }
}

/// After a seek both queues hold a null packet and nothing else, and no packet that was read
/// before the seek is of the generation that the queues are at.
pub proof fn law_seek_restarts_both_streams(state: DecoderStateView, began: PlayState)
    requires
        state.video.packets.consistent(),
        state.audio.packets.consistent(),
    ensures
        ({
            let after = after_seek(state, began);
            let (video, audio) = (after.video.packets, after.audio.packets);
            &&& video.packets == seq![
                Packet { handle: NULL_HANDLE, duration: 0, serial: video.serial },
            ]
            &&& audio.packets == seq![
                Packet { handle: NULL_HANDLE, duration: 0, serial: audio.serial },
            ]
            &&& video.duration == 0
            &&& audio.duration == 0
            &&& forall|i: int|
                0 <= i < state.video.packets.packets.len() ==> (
                #[trigger] state.video.packets.packets[i]).serial != video.serial
            &&& forall|i: int|
                0 <= i < state.audio.packets.packets.len() ==> (
                #[trigger] state.audio.packets.packets[i]).serial != audio.serial
        }),
{
}

/// A seek leaves the frames that were decoded before it in their queues.
pub proof fn law_seek_keeps_decoded_frames(state: DecoderStateView, began: PlayState)
    ensures
        after_seek(state, began).video.frames == state.video.frames,
        after_seek(state, began).audio.frames == state.audio.frames,
{
}

/// After a seek, frames that were decoded before it can be told from those that come: they are of
/// another generation than the queues, and so is a clock that was set from them.
pub proof fn law_seek_outdates_decoded_frames(
    state: DecoderStateView,
    began: PlayState,
    video: Frame,
    audio: Frame,
    clock: Clock,
)
    requires
        video.serial == state.video.packets.serial,
        audio.serial == state.audio.packets.serial,
        clock.serial == state.video.packets.serial,
    ensures
        video.serial != after_seek(state, began).video.packets.serial,
        audio.serial != after_seek(state, began).audio.packets.serial,
        clock.reading(after_seek(state, began).video.packets.serial) is Unavailable,
{
}

/// A seek while the player is paused shows one frame; one while it plays changes nothing about
/// that.
pub proof fn law_seek_while_paused_steps(state: DecoderStateView)
    ensures
        state.play_state is Paused ==> after_seek(state, state.play_state).play_state is Step,
        !(state.play_state is Paused) ==> after_seek(state, state.play_state).play_state
            == state.play_state,
{
}

/// The end of the input is told once, until a packet is read again.
pub proof fn law_end_is_told_once(state: DecoderStateView, at_end: bool)
    ensures
        ({
            let once = after_failure(state, true);
            after_failure(once, at_end) == once && once.is_eof
        }),
{
}

/// A packet of a stream ends up last in the queue of that stream, and no packet gets into the
/// queue of another one.
pub proof fn law_packets_reach_their_stream(
    state: DecoderStateView,
    index: usize,
    handle: u64,
    duration: i64,
)
    requires
        state.video.metadata.index != state.audio.metadata.index,
    ensures
        ({
            let after = after_packet(state, index, handle, duration);
            &&& index == state.video.metadata.index ==> after.video.packets.packets.last().handle
                == handle && after.audio == state.audio
            &&& index == state.audio.metadata.index ==> after.audio.packets.packets.last().handle
                == handle && after.video == state.video
            &&& index != state.video.metadata.index && index != state.audio.metadata.index
                ==> after.video == state.video && after.audio == state.audio
            &&& !after.is_eof
        }),
{
}

/// When the player ends, the thread wakes both decoders up once and is over.
pub proof fn law_thread_ends_with_the_player(
    thread: ReadThread,
    state: DecoderStateView,
    event: ReadEvent,
)
    requires
        !state.alive,
        thread.phase is Round,
    ensures
        ({
            let (action, after, next) = stepped(thread, state, event);
            &&& action is End
            &&& next == with_nulls(state)
            &&& stepped(after, next, event) == (action, after, next)
        }),
{
}

/// The thread only ever adds packets: a step of it takes none out, leaves decoded frames alone,
/// and does not change what the player is doing.
pub proof fn law_reading_only_adds_packets(
    thread: ReadThread,
    state: DecoderStateView,
    event: ReadEvent,
)
    ensures
        ({
            let next = stepped(thread, state, event).2;
            &&& state.video.packets.packets.is_prefix_of(next.video.packets.packets)
            &&& state.audio.packets.packets.is_prefix_of(next.audio.packets.packets)
            &&& next.video.packets.serial == state.video.packets.serial
            &&& next.audio.packets.serial == state.audio.packets.serial
            &&& next.video.frames == state.video.frames
            &&& next.audio.frames == state.audio.frames
            &&& next.play_state == state.play_state
            &&& next.alive == state.alive
        }),
{
}

/// A packet that was read goes to the video stream where it has that stream's index, else to the
/// audio stream where it has that one's, and is dropped otherwise. It comes last in its queue, with
/// its own length and the queue's generation. The input is not at its end any more, and a new round
/// begins.
pub proof fn law_packets_are_queued_as_they_were_read(
    thread: ReadThread,
    state: DecoderStateView,
    stream_index: usize,
    handle: u64,
    duration: i64,
)
    requires
        thread.phase is Reading,
    ensures
        ({
            let (action, after, next) = stepped(
                thread,
                state,
                ReadEvent::Packet { stream_index, handle, duration },
            );
            let is_video = stream_index == state.video.metadata.index;
            let is_audio = !is_video && stream_index == state.audio.metadata.index;
            &&& action == ReadAction::Routed(
                if is_video {
                    Route::Video
                } else if is_audio {
                    Route::Audio
                } else {
                    Route::Discarded
                },
            )
            &&& after.phase is Round
            &&& after.play_state == thread.play_state
            &&& !next.is_eof
            &&& is_video ==> {
                let packets = next.video.packets;
                &&& packets.packets.len() == state.video.packets.packets.len() + 1
                &&& packets.packets.drop_last() == state.video.packets.packets
                &&& packets.packets.last().handle == handle
                &&& packets.packets.last().duration == duration
                &&& packets.packets.last().serial == state.video.packets.serial
                &&& state.video.packets.consistent() ==> packets.consistent()
            }
            &&& !is_video ==> next.video == state.video
            &&& is_audio ==> {
                let packets = next.audio.packets;
                &&& packets.packets.len() == state.audio.packets.packets.len() + 1
                &&& packets.packets.drop_last() == state.audio.packets.packets
                &&& packets.packets.last().handle == handle
                &&& packets.packets.last().duration == duration
                &&& packets.packets.last().serial == state.audio.packets.serial
                &&& state.audio.packets.consistent() ==> packets.consistent()
            }
            &&& !is_audio ==> next.audio == state.audio
        }),
{
    let next = stepped(
        thread,
        state,
        ReadEvent::Packet { stream_index, handle, duration },
    ).2;
    if stream_index == state.video.metadata.index {
        assert(next.video.packets.packets.drop_last() =~= state.video.packets.packets);
        if state.video.packets.consistent() {
            law_queue_stays_consistent(state.video.packets, handle, duration);
        }
    } else if stream_index == state.audio.metadata.index {
        assert(next.audio.packets.packets.drop_last() =~= state.audio.packets.packets);
        if state.audio.packets.consistent() {
            law_queue_stays_consistent(state.audio.packets, handle, duration);
        }
    }
}

/// A null packet comes last in both queues, in their generations, where the input is found to be
/// at its end for the first time; a failure of any other kind changes nothing. The thread sleeps
/// and begins a new round.
pub proof fn law_failures_tell_the_end_to_both_streams(
    thread: ReadThread,
    state: DecoderStateView,
    at_end: bool,
)
    requires
        thread.phase is Reading,
    ensures
        ({
            let (action, after, next) = stepped(thread, state, ReadEvent::Failed { at_end });
            &&& action is Sleep
            &&& after.phase is Round
            &&& after.play_state == thread.play_state
            &&& !at_end || state.is_eof ==> next == state
            &&& at_end && !state.is_eof ==> {
                &&& next.is_eof
                &&& next.video.packets.packets == state.video.packets.packets.push(
                    Packet { handle: 0, duration: 0, serial: state.video.packets.serial },
                )
                &&& next.audio.packets.packets == state.audio.packets.packets.push(
                    Packet { handle: 0, duration: 0, serial: state.audio.packets.serial },
                )
                &&& next.video.packets.duration == state.video.packets.duration
                &&& next.audio.packets.duration == state.audio.packets.duration
            }
        }),
{
}

/// A round begins with what the player is doing at that time, and with the requests that came; the
/// state is left alone. At the player's end both decoders are woken by a null packet each.
pub proof fn law_rounds_begin_with_the_play_state(
    thread: ReadThread,
    state: DecoderStateView,
    event: ReadEvent,
)
    requires
        thread.phase is Round,
    ensures
        ({
            let (action, after, next) = stepped(thread, state, event);
            &&& state.alive ==> {
                &&& action is Seek
                &&& after.phase is Decide
                &&& after.play_state == state.play_state
                &&& next == state
            }
            &&& !state.alive ==> {
                &&& action is End
                &&& after.phase is Ended
                &&& next.video.packets.packets == state.video.packets.packets.push(
                    Packet { handle: 0, duration: 0, serial: state.video.packets.serial },
                )
                &&& next.audio.packets.packets == state.audio.packets.packets.push(
                    Packet { handle: 0, duration: 0, serial: state.audio.packets.serial },
                )
                &&& next.is_eof == state.is_eof
            }
        }),
{
}

/// The thread waits where 15 * 1024 * 1024 packets are exceeded, where both queues hold more than
/// 25 packets that last for over a second, and where a round that began while playing finds
/// everything read and shown. In all other cases it reads. It never waits while one of the queues
/// is short of packets, unless it is for the other two reasons.
pub proof fn law_reader_waits_only_when_there_is_enough(
    thread: ReadThread,
    state: DecoderStateView,
    event: ReadEvent,
)
    requires
        thread.phase is Decide,
        state.video.metadata.time_base.den > 0,
        state.audio.metadata.time_base.den > 0,
    ensures
        ({
            let (action, after, next) = stepped(thread, state, event);
            let (video, audio) = (state.video, state.audio);
            let too_many = video.packets.packets.len() + audio.packets.packets.len() > 15 * 1024
                * 1024;
            let video_is_full = video.packets.packets.len() > 25 && video.packets.duration
                * video.metadata.time_base.num > video.metadata.time_base.den;
            let audio_is_full = audio.packets.packets.len() > 25 && audio.packets.duration
                * audio.metadata.time_base.num > audio.metadata.time_base.den;
            let all_shown = state.is_eof && video.frames.queued.len() == 0 && thread.play_state
                == PlayState::Playing;
            &&& action is Sleep <==> too_many || video_is_full && audio_is_full || all_shown
            &&& action is Sleep ==> after.phase is Round
            &&& !(action is Sleep) ==> action is Read && after.phase is Reading
            &&& after.play_state == thread.play_state
            &&& next == state
        }),
{
    let (video, audio) = (state.video, state.audio);
    assert(video.packets.duration * video.metadata.time_base.num
        == video.metadata.time_base.num * video.packets.duration) by (nonlinear_arith);
    assert(audio.packets.duration * audio.metadata.time_base.num
        == audio.metadata.time_base.num * audio.packets.duration) by (nonlinear_arith);
}

/// A thread that is over stays over and touches nothing; one that reads goes on reading until
/// something came of it.
pub proof fn law_threads_keep_to_their_phase(
    thread: ReadThread,
    state: DecoderStateView,
    event: ReadEvent,
)
    ensures
        thread.phase is Ended ==> stepped(thread, state, event) == (ReadAction::End, thread, state),
        thread.phase is Reading ==> stepped(thread, state, ReadEvent::Resumed) == (
            ReadAction::Read,
            thread,
            state,
        ),
{
}

/// A seek steps where its round began in a paused player, whatever the player is doing since, and
/// leaves what it is doing alone otherwise. The input is not at its end any more; the position and
/// the player's life are left alone, and the generations of both queues move on by one.
pub proof fn law_seek_changes_no_more_than_it_must(state: DecoderStateView, began: PlayState)
    ensures
        ({
            let after = after_seek(state, began);
            &&& began is Paused ==> after.play_state is Step
            &&& !(began is Paused) ==> after.play_state == state.play_state
            &&& !after.is_eof
            &&& after.alive == state.alive
            &&& after.current_pts == state.current_pts
            &&& after.metadata == state.metadata
            &&& after.video.metadata == state.video.metadata
            &&& after.audio.metadata == state.audio.metadata
            &&& after.video.packets.stream == state.video.packets.stream
            &&& after.audio.packets.stream == state.audio.packets.stream
            &&& after.video.packets.serial == (if state.video.packets.serial == u32::MAX {
                0
            } else {
                state.video.packets.serial + 1
            })
            &&& after.audio.packets.serial == (if state.audio.packets.serial == u32::MAX {
                0
            } else {
                state.audio.packets.serial + 1
            })
        }),
{
}

/// An accurate seek has the decoders skip to the very timestamp that was asked for, and a fast one
/// has them skip nothing.
pub proof fn law_accurate_seeks_skip_to_their_timestamp(ts: i64)
    ensures
        skip_of(ReadMessage::SeekStream { ts, mode: SeekMode::Accurate }) == Some(ts),
        skip_of(ReadMessage::SeekStream { ts, mode: SeekMode::Fast }) is None,
{
}

} // verus!
