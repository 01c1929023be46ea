//! Demuxing and decoding, and the state that the player's threads share.
pub mod audio;
pub mod clock;
pub mod frame_queue;
pub mod frames;
pub mod hw;
pub mod packet_queue;
pub mod read;
pub mod selector;
pub mod vaapi;
pub mod video;
pub mod video_toolbox;

use crate::decode::audio::{AudioMetadata, AudioStream};
use crate::decode::frame_queue::FrameQueueView;
use crate::decode::packet_queue::{Packet, PacketQueue, PacketQueueView, NULL_HANDLE};
use crate::decode::read::Metadata;
use crate::decode::video::{VideoMetadata, VideoStream};
use vstd::prelude::*;

verus! {

/// What the player is doing.
#[derive(Debug, Clone, Copy, PartialEq, Eq, Structural)]
pub enum PlayState {
    /// Frames are shown as their time comes.
    Playing,
    /// Nothing is shown.
    Paused,
    /// One frame is shown, then the player pauses.
    Step,
}

/// What a stream holds, with metadata of the type `M`.
pub struct StreamView<M> {
    pub metadata: M,
    /// The packets on their way to the decoder.
    pub packets: PacketQueueView,
    /// The decoded frames.
    pub frames: FrameQueueView,
}

impl<M> StreamView<M> {
    /// The stream with a null packet at the end of its packets.
    pub open spec fn with_null(&self) -> StreamView<M> {
        StreamView { packets: self.packets.pushed(NULL_HANDLE, 0), ..*self }
    }

    /// The stream after a seek: its packets are gone, and the first of the next generation is
    /// a null packet.
    pub open spec fn restarted(&self) -> StreamView<M> {
        StreamView { packets: self.packets.flushed().pushed(NULL_HANDLE, 0), ..*self }
    }
}

/// What the threads share.
pub struct DecoderStateView {
    pub metadata: Metadata,
    /// The threads are to go on.
    pub alive: bool,
    pub play_state: PlayState,
    /// The input is at its end.
    pub is_eof: bool,
    /// The time of the last frame that was queued and has one, in units of the time base of
    /// the video stream.
    pub current_pts: i64,
    pub video: StreamView<VideoMetadata>,
    pub audio: StreamView<AudioMetadata>,
}

/// What the threads share.
pub struct DecoderState {
    pub metadata: Metadata,
    pub alive: bool,
    pub play_state: PlayState,
    pub is_eof: bool,
    pub current_pts: i64,
    pub video_stream: VideoStream,
    pub audio_stream: AudioStream,
}

impl View for DecoderState {
    type V = DecoderStateView;

    open spec fn view(&self) -> DecoderStateView {
        DecoderStateView {
            metadata: self.metadata,
            alive: self.alive,
            play_state: self.play_state,
            is_eof: self.is_eof,
            current_pts: self.current_pts,
            video: self.video_stream@,
            audio: self.audio_stream@,
        }
    }
}

impl DecoderState {
    /// Both streams are well formed.
    pub open spec fn wf(&self) -> bool {
        &&& self.video_stream.wf()
        &&& self.audio_stream.wf()
    }

    /// The state of a player that starts to play.
    pub fn new(metadata: Metadata, video: VideoStream, audio: AudioStream) -> (state: DecoderState)
        requires
            video.wf(),
            audio.wf(),
        ensures
            state.wf(),
            state@ == (DecoderStateView {
                metadata,
                alive: true,
                play_state: PlayState::Playing,
                is_eof: false,
                current_pts: 0,
                video: video@,
                audio: audio@,
            }),
    {
        DecoderState {
            metadata,
            alive: true,
            play_state: PlayState::Playing,
            is_eof: false,
            current_pts: 0,
            video_stream: video,
            audio_stream: audio,
        }
    }

    /// What the player is doing.
    pub fn play_state(&self) -> (play_state: PlayState)
        ensures
            play_state == self@.play_state,
    {
        self.play_state
    }

    /// Tells the threads to end.
    pub fn kill(&mut self)
        ensures
            final(self).wf() == old(self).wf(),
            final(self)@ == (DecoderStateView { alive: false, ..old(self)@ }),
    {
        self.alive = false;
    }
}

/// What a thread does that drops the packets of a stream.
#[derive(Debug, Clone, Copy, PartialEq, Eq, Structural)]
pub enum SinkStep {
    /// End.
    End,
    /// Wait for a packet.
    Wait,
    /// Drop the data of this packet.
    Drop(Packet),
}

/// A step of a thread that takes the packets of a stream that nothing decodes, until the player
/// ends.
pub fn sink_thread(alive: bool, packets: &mut PacketQueue) -> (step: SinkStep)
    requires
        old(packets).wf(),
    ensures
        final(packets).wf(),
        (step, final(packets)@) == (if !alive {
            (SinkStep::End, old(packets)@)
        } else if old(packets)@.packets.len() == 0 {
            (SinkStep::Wait, old(packets)@)
        } else {
            (SinkStep::Drop(old(packets)@.packets.first()), old(packets)@.popped())
        }),
{
    if !alive {
        return SinkStep::End;
    }
    match packets.try_receive() {
        Some(packet) => SinkStep::Drop(packet),
        None => SinkStep::Wait,
    }
}

} // verus!
