//! The player: which frame is shown when.
//!
//! Times are compared by whoever drives the player. What is decided here takes the outcomes of
//! those comparisons.
use crate::decode::audio::{AudioMetadata, AudioStream};
use crate::decode::clock::{not_a_number, Clock};
use crate::decode::frame_queue::{has_slot, fresh_pool, Frame, FrameQueue, FrameQueueView};
use crate::decode::packet_queue::{PacketQueue, PacketQueueView};
use crate::decode::read::{Metadata, ReadMessage};
use crate::decode::video::{VideoMetadata, VideoStream};
use crate::decode::{DecoderState, DecoderStateView, PlayState, StreamView};
use crate::rational::Rational;
use vstd::prelude::*;

verus! {

/// How close a seek comes to the position that it asks for.
#[derive(Debug, Clone, Copy, PartialEq, Eq, PartialOrd, Ord, Hash, Structural)]
pub enum SeekMode {
    /// The player goes on at the key frame before the position.
    Fast,
    /// The player goes on at the position.
    Accurate,
}

/// What became of a frame.
#[derive(Debug, Clone, Copy, PartialEq, Eq, Structural)]
pub enum FrameResponse {
    /// The frame is shown.
    Continue,
    /// The frame is dropped; the next one is looked at.
    Retry,
    /// The frame is kept for the next update.
    Requeue,
}

/// How many decoded video frames are kept.
pub const VIDEO_FRAMES: usize = 18;

/// How many decoded audio frames are kept.
pub const AUDIO_FRAMES: usize = 16;

/// So many more updates copy a frame to RGB after a step.
pub const COPIES_OF_A_STEP: u8 = 4;

/// No more than so many updates copy a frame again.
pub const MAX_COPIES: u8 = 16;

/// How an update begins.
#[derive(Debug, Clone, Copy, PartialEq, Eq, Structural)]
pub struct UpdateStart {
    /// The frame that is shown is copied to RGB once more.
    pub copy: bool,
    /// What to ask the reading thread for, where the player starts anew.
    pub restart: Option<ReadMessage>,
    /// There is nothing to show for 50 milliseconds.
    pub wait: bool,
}

/// The player starts anew: it loops, everything was read and shown, and it is not paused.
pub open spec fn restarts(state: DecoderStateView, looping: bool) -> bool {
    &&& state.video.frames.queued.len() == 0
    &&& state.is_eof
    &&& looping
    &&& !(state.play_state is Paused)
}

/// How an update in this state begins, when `copies` more are due.
pub open spec fn update_start(state: DecoderStateView, looping: bool, copies: u8) -> UpdateStart {
    let none_queued = state.video.frames.queued.len() == 0;
    UpdateStart {
        copy: !(state.play_state is Playing) && copies > 0,
        restart: if restarts(state, looping) {
            Some(ReadMessage::SeekStream { ts: 0, mode: SeekMode::Fast })
        } else {
            None
        },
        wait: state.play_state is Paused || none_queued,
    }
}

/// Whether the frame is from the packets that the stream is at, and how long it is shown.
#[derive(Debug, Clone, Copy, PartialEq, Eq, Structural)]
pub enum FrameStart {
    /// The frame was decoded before a seek. The timer starts anew.
    Outdated,
    /// The frame follows on the last one: it is shown for as long as their times are apart.
    Following,
    /// The frame is the first after a seek: it is shown at once.
    First,
}

/// How long a frame is shown.
#[derive(Debug, Clone, Copy, PartialEq, Eq, Structural)]
pub enum FrameDuration {
    /// As long as the times of the frames are apart.
    Measured,
    /// So many seconds: the frame rate turned upside down.
    Nominal(Rational),
    /// Not at all.
    Zero,
}

/// How the delay of a frame is changed for video to follow audio.
#[derive(Debug, Clone, Copy, PartialEq, Eq, Structural)]
pub enum DelayChange {
    Keep,
    /// Video is behind: the difference, which is negative, is added, down to zero.
    CatchUp,
    /// Video is ahead and frames are long: the difference is added.
    Extend,
    /// Video is ahead: the delay is doubled.
    Double,
}

/// How the clocks of both streams compare, where both can be read.
#[derive(Debug, Clone, Copy, PartialEq, Eq, Structural)]
pub enum ClockComparison {
    /// At least one of them tells nothing.
    Unknown,
    /// Video is behind by more than the threshold.
    VideoBehind,
    /// Video is ahead by more than the threshold.
    VideoAhead,
    /// They differ by no more than that.
    InSync,
}

/// The setting of the video clock when the player goes on: bit patterns of its time, of the
/// difference of that to the moment, and of the moment.
#[derive(Debug, Clone, Copy, PartialEq, Eq, Structural)]
pub struct ClockSetting {
    pub pts: u64,
    pub pts_drift: u64,
    pub time: u64,
}

/// The video clock after the player was paused or went on.
pub open spec fn video_clock_after(clock: Clock, paused: bool, setting: ClockSetting) -> Clock {
    if paused {
        Clock { paused: true, ..clock }
    } else {
        Clock {
            paused: false,
            ..clock.after_set(setting.pts, setting.pts_drift, setting.time, clock.serial)
        }
    }
}

/// Where a seek to this position leads: no later than to the end.
pub open spec fn seek_target(state: DecoderStateView, position: u128) -> u128 {
    if position <= state.metadata.duration {
        position
    } else {
        state.metadata.duration
    }
}

/// What becomes of the timer, which tells when the frame that is shown was due.
#[derive(Debug, Clone, Copy, PartialEq, Eq, Structural)]
pub enum TimerChange {
    Keep,
    /// It moves on by the delay of the frame.
    Advance,
    /// It is set to this moment.
    Restart,
}

/// What becomes of the timer when a frame is looked at: it starts anew with a frame from before a
/// seek, stays while the frame is early, and moves on with a frame that is due, unless it has then
/// fallen too far behind.
pub open spec fn timer_change(start: FrameStart, early: bool, fell_behind: bool) -> TimerChange {
    if start is Outdated {
        TimerChange::Restart
    } else if early {
        TimerChange::Keep
    } else if fell_behind {
        TimerChange::Restart
    } else {
        TimerChange::Advance
    }
}

/// The video clock after a frame was looked at: it is set from a frame that is neither from before
/// a seek nor early, under the serial number of that frame.
pub open spec fn clock_after_frame(
    clock: Clock,
    frame: Frame,
    start: FrameStart,
    early: bool,
    setting: ClockSetting,
) -> Clock {
    if start is Outdated || early {
        clock
    } else {
        clock.after_set(setting.pts, setting.pts_drift, setting.time, frame.serial)
    }
}

/// The player is not playing: it is paused, or will be once it has shown a frame.
pub open spec fn is_paused(state: DecoderStateView) -> bool {
    !(state.play_state is Playing)
}

/// The state once the player was paused or went on.
pub open spec fn with_pause(state: DecoderStateView, paused: bool) -> DecoderStateView {
    DecoderStateView {
        play_state: if paused {
            PlayState::Paused
        } else {
            PlayState::Playing
        },
        ..state
    }
}

/// The state of a player that is to show one frame.
pub open spec fn with_step(state: DecoderStateView) -> DecoderStateView {
    DecoderStateView { play_state: PlayState::Step, ..state }
}

/// A frame that follows on the last one is shown for as long as their times are apart, where
/// that is neither negative nor over an hour.
pub fn frame_duration(out_of_range: bool, framerate: Rational) -> (duration: FrameDuration)
    ensures
        duration == duration_of(out_of_range, framerate),
{
    if !out_of_range {
        FrameDuration::Measured
    } else if framerate.is_positive() {
        FrameDuration::Nominal(framerate.invert())
    } else {
        FrameDuration::Zero
    }
}

/// How the delay of a frame is changed. `long` says that the delay is too long to be doubled.
pub fn delay_change(clocks: ClockComparison, long: bool) -> (change: DelayChange)
    ensures
        change == change_of(clocks, long),
{
    match clocks {
        ClockComparison::Unknown => DelayChange::Keep,
        ClockComparison::InSync => DelayChange::Keep,
        ClockComparison::VideoBehind => DelayChange::CatchUp,
        ClockComparison::VideoAhead => if long {
            DelayChange::Extend
        } else {
            DelayChange::Double
        },
    }
}

/// How long a frame is shown, where its measured length may be out of range.
pub open spec fn duration_of(out_of_range: bool, framerate: Rational) -> FrameDuration {
    if !out_of_range {
        FrameDuration::Measured
    } else if framerate.num > 0 && framerate.den > 0 {
        FrameDuration::Nominal(Rational { num: framerate.den, den: framerate.num })
    } else {
        FrameDuration::Zero
    }
}

/// How the delay of a frame is changed.
pub open spec fn change_of(clocks: ClockComparison, long: bool) -> DelayChange {
    match clocks {
        ClockComparison::Unknown => DelayChange::Keep,
        ClockComparison::InSync => DelayChange::Keep,
        ClockComparison::VideoBehind => DelayChange::CatchUp,
        ClockComparison::VideoAhead => if long {
            DelayChange::Extend
        } else {
            DelayChange::Double
        },
    }
}

/// How to look at a frame, while the queue is at the generation `queue_serial` and the last frame was
/// of the generation `last_serial`.
pub open spec fn start_of(frame: Frame, queue_serial: u32, last_serial: u32) -> FrameStart {
    if frame.serial != queue_serial {
        FrameStart::Outdated
    } else if frame.serial == last_serial {
        FrameStart::Following
    } else {
        FrameStart::First
    }
}

/// What becomes of a frame.
pub open spec fn response_of(
    play_state: PlayState,
    start: FrameStart,
    queued_len: nat,
    early: bool,
    late: bool,
) -> FrameResponse {
    if start is Outdated {
        FrameResponse::Retry
    } else if early {
        FrameResponse::Requeue
    } else if !(play_state is Step) && queued_len > 0 && late {
        FrameResponse::Retry
    } else {
        FrameResponse::Continue
    }
}

/// How many copies are due after a step, when `copies` were.
pub open spec fn copies_after_step(copies: u8) -> u8 {
    (if copies + COPIES_OF_A_STEP <= MAX_COPIES {
        copies + COPIES_OF_A_STEP
    } else {
        MAX_COPIES as int
    }) as u8
}

/// How many copies are due after an update began, when `copies` were.
pub open spec fn copies_after_update(play_state: PlayState, copies: u8) -> u8 {
    if play_state is Playing || copies == 0 {
        0
    } else {
        (copies - 1) as u8
    }
}

/// The state of the player besides what its threads share.
pub struct Video {
    /// The player starts anew at the end.
    pub looping: bool,
    /// The time of the last frame, in units of the time base.
    pub last_pts: i64,
    /// The generation of the last frame.
    pub last_serial: u32,
    /// The frame that was too early in the last update.
    pub queued_frame: Option<Frame>,
    /// How many more updates copy the frame to RGB again.
    pub step_needs_copy: u8,
}

impl Video {
    /// The player holds its frame, and no more copies are due than the maximum.
    pub open spec fn wf(&self, frames: FrameQueueView) -> bool {
        &&& self.queued_frame matches Some(frame) ==> frames.handed_out(frame.slot)
        &&& self.step_needs_copy <= MAX_COPIES
    }

    /// The frame queue with the frame that the player holds given back.
    pub open spec fn gives_back(&self, frames: FrameQueueView) -> FrameQueueView {
        match self.queued_frame {
            Some(frame) => frames.released(frame),
            None => frames,
        }
    }

    /// The state once every decoded frame was given back.
    pub open spec fn flushed(&self, state: DecoderStateView) -> DecoderStateView {
        DecoderStateView {
            video: StreamView {
                frames: self.gives_back(state.video.frames).flushed(),
                ..state.video
            },
            audio: StreamView { frames: state.audio.frames.flushed(), ..state.audio },
            ..state
        }
    }

    /// A player of an input with these streams, and what its threads share.
    pub fn new(metadata: Metadata, video: VideoMetadata, audio: AudioMetadata) -> (made: (
        Video,
        DecoderState,
    ))
        ensures
            made.0 == (Video {
                looping: false,
                last_pts: 0,
                last_serial: 0,
                queued_frame: None,
                step_needs_copy: 0,
            }),
            made.0.wf(made.1@.video.frames),
            made.1.wf(),
            made.1@ == (DecoderStateView {
                metadata,
                alive: true,
                play_state: PlayState::Playing,
                is_eof: false,
                current_pts: 0,
                video: StreamView {
                    metadata: video,
                    packets: PacketQueueView {
                        packets: Seq::empty(),
                        duration: 0,
                        serial: 0,
                        stream: video.index,
                    },
                    frames: FrameQueueView {
                        capacity: VIDEO_FRAMES as nat,
                        free: fresh_pool(VIDEO_FRAMES as nat),
                        queued: Seq::empty(),
                    },
                },
                audio: StreamView {
                    metadata: audio,
                    packets: PacketQueueView {
                        packets: Seq::empty(),
                        duration: 0,
                        serial: 0,
                        stream: audio.index,
                    },
                    frames: FrameQueueView {
                        capacity: AUDIO_FRAMES as nat,
                        free: fresh_pool(AUDIO_FRAMES as nat),
                        queued: Seq::empty(),
                    },
                },
            }),
    {
        let video_stream = VideoStream {
            metadata: video,
            packets: PacketQueue::new(video.index),
            frames: FrameQueue::new(VIDEO_FRAMES),
        };
        let audio_stream = AudioStream {
            metadata: audio,
            packets: PacketQueue::new(audio.index),
            frames: FrameQueue::new(AUDIO_FRAMES),
        };
        let state = DecoderState::new(metadata, video_stream, audio_stream);
        let player = Video {
            looping: false,
            last_pts: 0,
            last_serial: 0,
            queued_frame: None,
            step_needs_copy: 0,
        };
        (player, state)
    }

    /// Begins an update. A player that starts anew gives every decoded frame back.
    pub fn begin_update(&mut self, state: &mut DecoderState) -> (start: UpdateStart)
        requires
            old(state).wf(),
            old(self).wf(old(state)@.video.frames),
        ensures
            final(state).wf(),
            final(self).wf(final(state)@.video.frames),
            start == update_start(old(state)@, old(self).looping, old(self).step_needs_copy),
            final(state)@ == (if restarts(old(state)@, old(self).looping) {
                old(self).flushed(old(state)@)
            } else {
                old(state)@
            }),
            *final(self) == (Video {
                step_needs_copy: copies_after_update(
                    old(state)@.play_state,
                    old(self).step_needs_copy,
                ),
                queued_frame: if restarts(old(state)@, old(self).looping) {
                    None
                } else {
                    old(self).queued_frame
                },
                ..*old(self)
            }),
    {
        let play_state = state.play_state();
        if play_state == PlayState::Playing {
            self.step_needs_copy = 0;
        }
        let copy = self.step_needs_copy > 0;
        if copy {
            self.step_needs_copy = self.step_needs_copy - 1;
        }
        let none_queued = state.video_stream.frames.queued_len() == 0;
        let restart = if none_queued && state.is_eof && self.looping && play_state
            != PlayState::Paused {
            self.flush(state);
            Some(ReadMessage::SeekStream { ts: 0, mode: SeekMode::Fast })
        } else {
            None
        };
        let wait = play_state == PlayState::Paused || none_queued;
        UpdateStart { copy, restart, wait }
    }

    /// The next frame to look at, with the number of those in the queue before it was taken:
    /// the one that was kept, or else the oldest of the queue.
    pub fn next_frame(&mut self, state: &mut DecoderState) -> (next: Option<(Frame, usize)>)
        requires
            old(state).wf(),
            old(self).wf(old(state)@.video.frames),
        ensures
            final(state).wf(),
            final(self).wf(final(state)@.video.frames),
            *final(self) == (Video { queued_frame: None, ..*old(self) }),
            ({
                let frames = old(state)@.video.frames;
                match next {
                    Some((frame, queued_len)) => {
                        &&& queued_len == frames.queued.len()
                        &&& final(state)@.video.frames.handed_out(frame.slot)
                        &&& match old(self).queued_frame {
                            Some(kept) => frame == kept && final(state)@ == old(state)@,
                            None => {
                                &&& frames.queued.len() > 0
                                &&& frame == frames.queued.first()
                                &&& final(state)@ == (DecoderStateView {
                                    video: StreamView {
                                        frames: frames.taken(),
                                        ..old(state)@.video
                                    },
                                    ..old(state)@
                                })
                            },
                        }
                    },
                    None => {
                        &&& old(self).queued_frame is None
                        &&& frames.queued.len() == 0
                        &&& final(state)@ == old(state)@
                    },
                }
            }),
    {
        let queued_len: usize = state.video_stream.frames.queued_len();
        match self.queued_frame {
            Some(frame) => {
                self.queued_frame = None;
                Some((frame, queued_len))
            },
            None => match state.video_stream.frames.try_next() {
                Some(frame) => Some((frame, queued_len)),
                None => None,
            },
        }
    }

    /// How to look at a frame.
    pub fn frame_start(&self, state: &DecoderState, frame: &Frame) -> (start: FrameStart)
        ensures
            start == start_of(*frame, state@.video.packets.serial, self.last_serial),
    {
        if frame.serial != state.video_stream.packets.serial() {
            FrameStart::Outdated
        } else if frame.serial == self.last_serial {
            FrameStart::Following
        } else {
            FrameStart::First
        }
    }

    /// Sets the video clock from a frame that is due, to `setting`, and tells what becomes of the
    /// timer. `early` says that the time of the frame has not come, `fell_behind` that the timer,
    /// moved on by a delay that is not zero, is too far behind this moment.
    pub fn frame_due(
        &self,
        video_clock: &mut Clock,
        frame: &Frame,
        start: FrameStart,
        early: bool,
        fell_behind: bool,
        setting: ClockSetting,
    ) -> (change: TimerChange)
        ensures
            change == timer_change(start, early, fell_behind),
            *final(video_clock) == clock_after_frame(
                *old(video_clock),
                *frame,
                start,
                early,
                setting,
            ),
    {
        if start == FrameStart::Outdated {
            return TimerChange::Restart;
        }
        if early {
            return TimerChange::Keep;
        }
        video_clock.set(setting.pts, setting.pts_drift, setting.time, frame.serial);
        if fell_behind {
            TimerChange::Restart
        } else {
            TimerChange::Advance
        }
    }

    /// What becomes of a frame. `early` says that its time has not come, `late` that its time is
    /// over. A step shows late frames too, and so does a player whose queue was empty.
    pub fn update_frame(
        &self,
        state: &DecoderState,
        start: FrameStart,
        queued_len: usize,
        early: bool,
        late: bool,
    ) -> (response: FrameResponse)
        ensures
            response == response_of(state@.play_state, start, queued_len as nat, early, late),
    {
        if start == FrameStart::Outdated {
            FrameResponse::Retry
        } else if early {
            FrameResponse::Requeue
        } else if state.play_state() != PlayState::Step && queued_len > 0 && late {
            FrameResponse::Retry
        } else {
            FrameResponse::Continue
        }
    }

    /// Takes note that a frame was decoded to be shown. A step ends with it.
    pub fn frame_shown(
        &mut self,
        state: &mut DecoderState,
        video_clock: &mut Clock,
        audio_clock: &mut Clock,
    )
        requires
            old(self).step_needs_copy <= MAX_COPIES,
        ensures
            final(state).wf() == old(state).wf(),
            if old(state)@.play_state is Step {
                &&& *final(self) == (Video {
                    step_needs_copy: copies_after_step(old(self).step_needs_copy),
                    ..*old(self)
                })
                &&& final(state)@ == (DecoderStateView {
                    play_state: PlayState::Paused,
                    ..old(state)@
                })
                &&& *final(video_clock) == (Clock { paused: true, ..*old(video_clock) })
                &&& *final(audio_clock) == (Clock { paused: true, ..*old(audio_clock) })
            } else {
                &&& *final(self) == *old(self)
                &&& final(state)@ == old(state)@
                &&& *final(video_clock) == *old(video_clock)
                &&& *final(audio_clock) == *old(audio_clock)
            },
    {
        if state.play_state() == PlayState::Step {
            let copies: u8 = self.step_needs_copy + COPIES_OF_A_STEP;
            self.step_needs_copy = if copies < MAX_COPIES {
                copies
            } else {
                MAX_COPIES
            };
            let unused = ClockSetting { pts: 0, pts_drift: 0, time: 0 };
            self.set_paused(state, video_clock, audio_clock, true, unused);
        }
    }

    /// Ends the look at a frame: it is kept, or its slot is given back. Returns whether the next
    /// frame is looked at in the same update.
    pub fn finish_frame(
        &mut self,
        state: &mut DecoderState,
        frame: Frame,
        response: FrameResponse,
    ) -> (again: bool)
        requires
            old(state).wf(),
            old(self).queued_frame is None,
            old(self).step_needs_copy <= MAX_COPIES,
            old(state)@.video.frames.handed_out(frame.slot),
        ensures
            final(state).wf(),
            final(self).wf(final(state)@.video.frames),
            again == (response is Retry),
            if response is Requeue {
                &&& *final(self) == (Video { queued_frame: Some(frame), ..*old(self) })
                &&& final(state)@ == old(state)@
            } else {
                &&& *final(self) == (Video {
                    last_pts: frame.timestamp,
                    last_serial: frame.serial,
                    ..*old(self)
                })
                &&& final(state)@ == (DecoderStateView {
                    video: StreamView {
                        frames: old(state)@.video.frames.released(frame),
                        ..old(state)@.video
                    },
                    ..old(state)@
                })
            },
    {
        match response {
            FrameResponse::Requeue => {
                self.queued_frame = Some(frame);
                false
            },
            _ => {
                self.last_pts = frame.timestamp;
                self.last_serial = frame.serial;
                state.video_stream.frames.release(frame);
                response == FrameResponse::Retry
            },
        }
    }

    /// Gives every decoded frame back.
    pub fn flush(&mut self, state: &mut DecoderState)
        requires
            old(state).wf(),
            old(self).wf(old(state)@.video.frames),
        ensures
            final(state).wf(),
            final(self).wf(final(state)@.video.frames),
            *final(self) == (Video { queued_frame: None, ..*old(self) }),
            final(state)@ == old(self).flushed(old(state)@),
    {
        if let Some(frame) = self.queued_frame {
            self.queued_frame = None;
            state.video_stream.frames.release(frame);
        }
        state.video_stream.frames.flush();
        state.audio_stream.frames.flush();
    }

    /// Seeks to a position in nanoseconds, but no later than to the end, and gives every decoded
    /// frame back. Returns what to ask the reading thread for. `to_micros` turns nanoseconds
    /// into the timestamp, in microseconds.
    pub fn seek(
        &mut self,
        state: &mut DecoderState,
        position: u128,
        mode: SeekMode,
        to_micros: impl Fn(u128) -> i64,
    ) -> (request: ReadMessage)
        requires
            old(state).wf(),
            old(self).wf(old(state)@.video.frames),
            call_requires(to_micros, (seek_target(old(state)@, position),)),
        ensures
            match request {
                ReadMessage::SeekStream { ts, mode: asked } => {
                    &&& asked == mode
                    &&& call_ensures(to_micros, (seek_target(old(state)@, position),), ts)
                },
            },
            final(state).wf(),
            final(self).wf(final(state)@.video.frames),
            *final(self) == (Video { queued_frame: None, ..*old(self) }),
            final(state)@ == old(self).flushed(old(state)@),
    {
        let end: u128 = self.duration(state);
        let target: u128 = if position < end {
            position
        } else {
            end
        };
        let ts: i64 = to_micros(target);
        self.flush(state);
        ReadMessage::SeekStream { ts, mode }
    }

    /// The width of the video.
    pub fn width(&self, state: &DecoderState) -> (width: u32)
        ensures
            width == state@.video.metadata.width,
    {
        state.video_stream.metadata.width
    }

    /// The height of the video.
    pub fn height(&self, state: &DecoderState) -> (height: u32)
        ensures
            height == state@.video.metadata.height,
    {
        state.video_stream.metadata.height
    }

    /// How long the input plays, in nanoseconds.
    pub fn duration(&self, state: &DecoderState) -> (duration: u128)
        ensures
            duration == state@.metadata.duration,
    {
        state.metadata.duration
    }

    /// Whether the player is not playing.
    pub fn paused(&self, state: &DecoderState) -> (paused: bool)
        ensures
            paused == is_paused(state@),
    {
        state.play_state() != PlayState::Playing
    }

    /// Pauses the player, or lets it go on. `setting` is what the video clock is set to where it
    /// goes on.
    pub fn set_paused(
        &self,
        state: &mut DecoderState,
        video_clock: &mut Clock,
        audio_clock: &mut Clock,
        paused: bool,
        setting: ClockSetting,
    )
        ensures
            final(state).wf() == old(state).wf(),
            final(state)@ == with_pause(old(state)@, paused),
            *final(video_clock) == video_clock_after(*old(video_clock), paused, setting),
            *final(audio_clock) == (Clock { paused, ..*old(audio_clock) }),
    {
        if !paused {
            let serial: u32 = video_clock.serial;
            video_clock.set(setting.pts, setting.pts_drift, setting.time, serial);
        }
        video_clock.set_paused(paused);
        audio_clock.set_paused(paused);
        state.play_state = if paused {
            PlayState::Paused
        } else {
            PlayState::Playing
        };
    }

    /// Whether the player starts anew at the end.
    pub fn looping(&self) -> (looping: bool)
        ensures
            looping == self.looping,
    {
        self.looping
    }

    /// Sets whether the player starts anew at the end.
    pub fn set_looping(&mut self, looping: bool)
        ensures
            *final(self) == (Video { looping, ..*old(self) }),
    {
        self.looping = looping;
    }

    /// Shows one frame. `setting` is what the video clock is set to.
    pub fn step_one_frame(
        &self,
        state: &mut DecoderState,
        video_clock: &mut Clock,
        audio_clock: &mut Clock,
        setting: ClockSetting,
    )
        ensures
            final(state).wf() == old(state).wf(),
            final(state)@ == with_step(old(state)@),
            *final(video_clock) == video_clock_after(*old(video_clock), false, setting),
            *final(audio_clock) == (Clock { paused: false, ..*old(audio_clock) }),
    {
        self.set_paused(state, video_clock, audio_clock, false, setting);
        state.play_state = PlayState::Step;
    }

    /// Gives every decoded frame back and tells the threads to end.
    pub fn close(&mut self, state: &mut DecoderState)
        requires
            old(state).wf(),
            old(self).wf(old(state)@.video.frames),
        ensures
            final(state).wf(),
            final(self).wf(final(state)@.video.frames),
            *final(self) == (Video { queued_frame: None, ..*old(self) }),
            final(state)@ == (DecoderStateView {
                alive: false,
                ..old(self).flushed(old(state)@)
            }),
    {
        self.flush(state);
        state.kill();
    }
}

/// What the video thread does to the queue leaves the frame that the player holds to it.
pub proof fn law_held_frame_stays_held(
    player: Video,
    frames: FrameQueueView,
    timestamp: i64,
    serial: u32,
)
    requires
        player.wf(frames),
        frames.consistent(),
        frames.free.len() > 0,
    ensures
        player.wf(frames.sent(timestamp, serial)),
{
    if let Some(frame) = player.queued_frame {
        let sent = frames.sent(timestamp, serial);
        if has_slot(sent.free, frame.slot) {
            let i = choose|i: int|
                0 <= i < sent.free.len() && (#[trigger] sent.free[i]).slot == frame.slot;
            assert(frames.free[i + 1].slot == frame.slot);
        }
        if has_slot(sent.queued, frame.slot) {
            let i = choose|i: int|
                0 <= i < sent.queued.len() && (#[trigger] sent.queued[i]).slot == frame.slot;
            if i < frames.queued.len() {
                assert(frames.queued[i].slot == frame.slot);
            } else {
                assert(frames.free[0].slot == frame.slot);
            }
        }
    }
}

/// After a flush nothing waits to be shown or heard, and the frame that the player held can be
/// filled again.
pub proof fn law_flush_gives_everything_back(player: Video, state: DecoderStateView)
    requires
        player.wf(state.video.frames),
    ensures
        ({
            let after = player.flushed(state);
            &&& after.video.frames.queued.len() == 0
            &&& after.audio.frames.queued.len() == 0
            &&& player.queued_frame matches Some(frame) ==> has_slot(
                after.video.frames.free,
                frame.slot,
            )
            &&& after.video.packets == state.video.packets
            &&& after.audio.packets == state.audio.packets
        }),
{
    if let Some(frame) = player.queued_frame {
        let free = player.flushed(state).video.frames.free;
        let place = state.video.frames.free.len() as int;
        assert(free[place].slot == frame.slot);
    }
}

/// The player starts anew only where it loops, has read everything and shown everything, and is
/// not paused. It then asks for the beginning, in the fast mode, and has nothing to show in that
/// update.
pub proof fn law_restart_is_at_the_end(state: DecoderStateView, looping: bool, copies: u8)
    ensures
        ({
            let start = update_start(state, looping, copies);
            &&& start.restart matches Some(request) ==> {
                &&& request == ReadMessage::SeekStream { ts: 0, mode: SeekMode::Fast }
                &&& looping
                &&& state.is_eof
                &&& state.video.frames.queued.len() == 0
                &&& start.wait
            }
            &&& looping && state.is_eof && state.video.frames.queued.len() == 0 && !(
            state.play_state is Paused) ==> start.restart is Some
            &&& state.play_state is Paused ==> start.wait && start.restart is None
            &&& state.play_state is Playing ==> !start.copy
        }),
{
}

/// No seek leads past the end, and one to a position before it leads there.
pub proof fn law_seeks_stay_within_the_input(state: DecoderStateView, position: u128)
    ensures
        seek_target(state, position) <= state.metadata.duration,
        position <= state.metadata.duration ==> seek_target(state, position) == position,
{
}

/// Once a frame of the stream's generation is due, the video clock can be read, as long as no seek
/// comes in between; frames that are early or from before a seek leave it as it was.
pub proof fn law_due_frames_set_the_clock(
    clock: Clock,
    frame: Frame,
    start: FrameStart,
    early: bool,
    setting: ClockSetting,
    queue_serial: u32,
)
    requires
        start is Outdated <==> frame.serial != queue_serial,
        !not_a_number(setting.pts),
    ensures
        ({
            let after = clock_after_frame(clock, frame, start, early, setting);
            &&& frame.serial == queue_serial && !early ==> {
                &&& after.serial == frame.serial
                &&& after.pts == setting.pts
                &&& !(after.reading(queue_serial) is Unavailable)
            }
            &&& frame.serial != queue_serial || early ==> after == clock
            &&& after.paused == clock.paused
        }),
{
}

/// A player is paused exactly where it was paused last; one that steps counts as paused. Nothing
/// else is changed, so that pausing and going on again leaves everything as it was.
pub proof fn law_pause_is_what_was_set(state: DecoderStateView, paused: bool)
    ensures
        is_paused(with_pause(state, paused)) == paused,
        is_paused(with_step(state)),
        state.play_state is Playing ==> with_pause(with_pause(state, true), false) == state,
{
}

/// Pausing the video clock and letting it go on leaves its generation, and a paused clock is
/// held at the time that it was set to.
pub proof fn law_pausing_keeps_the_generation(clock: Clock, paused: bool, setting: ClockSetting)
    ensures
        video_clock_after(clock, paused, setting).serial == clock.serial,
        video_clock_after(clock, paused, setting).paused == paused,
        video_clock_after(clock, true, setting).pts == clock.pts,
{
}

/// An update has nothing to show exactly where the player is paused or no frame is queued: a player
/// that plays or steps looks at the frames that wait. The frame that is shown is copied again
/// exactly where copies are due and the player does not play.
pub proof fn law_updates_show_unless_paused_or_empty(
    state: DecoderStateView,
    looping: bool,
    copies: u8,
)
    ensures
        ({
            let start = update_start(state, looping, copies);
            &&& start.wait <==> state.play_state == PlayState::Paused
                || state.video.frames.queued.len() == 0
            &&& state.play_state == PlayState::Step && state.video.frames.queued.len() > 0
                ==> !start.wait
            &&& state.play_state == PlayState::Playing && state.video.frames.queued.len() > 0
                ==> !start.wait
            &&& start.copy <==> copies > 0 && state.play_state != PlayState::Playing
        }),
{
}

/// Pausing and stepping change what the player is doing, and nothing else.
pub proof fn law_pausing_changes_nothing_else(state: DecoderStateView, paused: bool)
    ensures
        ({
            let after = with_pause(state, paused);
            &&& after.play_state == (if paused {
                PlayState::Paused
            } else {
                PlayState::Playing
            })
            &&& after.alive == state.alive
            &&& after.is_eof == state.is_eof
            &&& after.current_pts == state.current_pts
            &&& after.metadata == state.metadata
            &&& after.video == state.video
            &&& after.audio == state.audio
        }),
        ({
            let after = with_step(state);
            &&& after.play_state == PlayState::Step
            &&& after.alive == state.alive
            &&& after.is_eof == state.is_eof
            &&& after.current_pts == state.current_pts
            &&& after.metadata == state.metadata
            &&& after.video == state.video
            &&& after.audio == state.audio
        }),
        is_paused(state) <==> state.play_state != PlayState::Playing,
{
}

/// A paused video clock keeps all that it was set to; one that goes on is set anew, under the same
/// generation, and runs.
pub proof fn law_clocks_go_on_from_their_setting(clock: Clock, setting: ClockSetting)
    ensures
        ({
            let held = video_clock_after(clock, true, setting);
            &&& held.paused
            &&& held.pts == clock.pts
            &&& held.pts_drift == clock.pts_drift
            &&& held.last_updated == clock.last_updated
            &&& held.speed == clock.speed
            &&& held.serial == clock.serial
        }),
        ({
            let going = video_clock_after(clock, false, setting);
            &&& !going.paused
            &&& going.pts == setting.pts
            &&& going.pts_drift == setting.pts_drift
            &&& going.last_updated == setting.time
            &&& going.speed == clock.speed
            &&& going.serial == clock.serial
        }),
{
}

/// A frame that is due sets the whole of the clock; and the timer stays exactly while a current
/// frame is early, moves on with one that is due, and starts anew with an outdated frame, or where
/// it fell behind with a frame that is due.
pub proof fn law_frames_drive_clock_and_timer(
    clock: Clock,
    frame: Frame,
    start: FrameStart,
    early: bool,
    fell_behind: bool,
    setting: ClockSetting,
)
    ensures
        ({
            let after = clock_after_frame(clock, frame, start, early, setting);
            &&& start == FrameStart::Outdated || early ==> after == clock
            &&& start != FrameStart::Outdated && !early ==> {
                &&& after.pts == setting.pts
                &&& after.pts_drift == setting.pts_drift
                &&& after.last_updated == setting.time
                &&& after.serial == frame.serial
                &&& after.speed == clock.speed
                &&& after.paused == clock.paused
            }
        }),
        timer_change(start, early, fell_behind) is Keep <==> start != FrameStart::Outdated && early,
        timer_change(start, early, fell_behind) is Advance <==> start != FrameStart::Outdated
            && !early && !fell_behind,
        timer_change(start, early, fell_behind) is Restart <==> start == FrameStart::Outdated
            || !early && fell_behind,
{
}

/// A flush frees the slots of the frame that the player held and of all that were queued, behind
/// those that were free, and leaves packets, play state, position and everything else.
pub proof fn law_flush_changes_frames_alone(player: Video, state: DecoderStateView)
    ensures
        ({
            let after = player.flushed(state);
            let held: nat = if player.queued_frame is Some {
                1
            } else {
                0
            };
            &&& after.video.frames.free.len() == state.video.frames.free.len() + held
                + state.video.frames.queued.len()
            &&& after.video.frames.free.take(state.video.frames.free.len() as int)
                == state.video.frames.free
            &&& after.audio.frames.free.len() == state.audio.frames.free.len()
                + state.audio.frames.queued.len()
            &&& after.video.frames.queued.len() == 0
            &&& after.audio.frames.queued.len() == 0
            &&& after.video.frames.capacity == state.video.frames.capacity
            &&& after.audio.frames.capacity == state.audio.frames.capacity
            &&& after.video.packets == state.video.packets
            &&& after.audio.packets == state.audio.packets
            &&& after.video.metadata == state.video.metadata
            &&& after.audio.metadata == state.audio.metadata
            &&& after.play_state == state.play_state
            &&& after.is_eof == state.is_eof
            &&& after.alive == state.alive
            &&& after.current_pts == state.current_pts
            &&& after.metadata == state.metadata
        }),
{
    assert(player.flushed(state).video.frames.free.take(state.video.frames.free.len() as int)
        =~= state.video.frames.free);
}

/// A frame is shown for as long as it was measured to be, unless that is out of range. Then it is
/// shown for the time that the frame rate gives one frame, which is positive, or not at all where
/// the frame rate says nothing.
pub proof fn law_frames_out_of_range_last_as_the_frame_rate_says(
    out_of_range: bool,
    framerate: Rational,
)
    ensures
        duration_of(out_of_range, framerate) is Measured <==> !out_of_range,
        match duration_of(out_of_range, framerate) {
            FrameDuration::Nominal(duration) => {
                &&& framerate.num > 0 && framerate.den > 0
                &&& duration.num > 0 && duration.den > 0
                &&& duration.num == framerate.den && duration.den == framerate.num
            },
            FrameDuration::Zero => out_of_range && (framerate.num <= 0 || framerate.den <= 0),
            FrameDuration::Measured => true,
        },
{
}

/// The delay stays where the clocks agree or do not both tell the time. Video that is behind catches
/// up, and video that is ahead waits: by the difference where its delay is long, and twice as long
/// where it is not.
pub proof fn law_delays_follow_the_clocks(clocks: ClockComparison, long: bool)
    ensures
        change_of(clocks, long) is Keep <==> clocks is Unknown || clocks is InSync,
        change_of(clocks, long) is CatchUp <==> clocks is VideoBehind,
        change_of(clocks, long) is Extend <==> clocks is VideoAhead && long,
        change_of(clocks, long) is Double <==> clocks is VideoAhead && !long,
{
}

/// A frame is outdated exactly where it is not of the generation that the queue is at; otherwise it
/// follows exactly on a last frame of the same generation.
pub proof fn law_generations_tell_how_to_look_at_frames(
    frame: Frame,
    queue_serial: u32,
    last_serial: u32,
)
    ensures
        start_of(frame, queue_serial, last_serial) is Outdated <==> frame.serial != queue_serial,
        start_of(frame, queue_serial, last_serial) is Following <==> frame.serial == queue_serial
            && last_serial == queue_serial,
        start_of(frame, queue_serial, last_serial) is First <==> frame.serial == queue_serial
            && last_serial != queue_serial,
{
}

/// An outdated frame is dropped. A current one is kept exactly while it is early; once it is due, it
/// is dropped exactly where it is late, others wait, and the player does not step, and shown
/// otherwise: a step always shows the frame that is due.
pub proof fn law_frames_are_shown_when_due(
    play_state: PlayState,
    start: FrameStart,
    queued_len: nat,
    early: bool,
    late: bool,
)
    ensures
        ({
            let response = response_of(play_state, start, queued_len, early, late);
            let current = start != FrameStart::Outdated;
            &&& response is Requeue <==> current && early
            &&& response is Continue <==> current && !early && (!late || queued_len == 0
                || play_state == PlayState::Step)
            &&& response is Retry <==> !current || !early && late && queued_len > 0 && play_state
                != PlayState::Step
            &&& current && !early && play_state == PlayState::Step ==> response is Continue
        }),
{
}

/// A step adds four copies, but never more than sixteen are due; each update takes one, and playing
/// on takes all.
pub proof fn law_copies_run_out(play_state: PlayState, copies: u8)
    requires
        copies <= 16,
    ensures
        copies_after_step(copies) <= 16,
        copies <= 12 ==> copies_after_step(copies) == copies + 4,
        copies >= 12 ==> copies_after_step(copies) == 16,
        play_state == PlayState::Playing ==> copies_after_update(play_state, copies) == 0,
        play_state != PlayState::Playing && copies > 0 ==> copies_after_update(play_state, copies)
            == copies - 1,
        copies == 0 ==> copies_after_update(play_state, copies) == 0,
{
}

} // verus!
