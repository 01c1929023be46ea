use ffgpu::decode::audio::AudioMetadata;
use ffgpu::decode::clock::{Clock, ClockReading};
use ffgpu::decode::frame_queue::FrameQueue;
use ffgpu::decode::packet_queue::{PacketQueue, NULL_HANDLE};
use ffgpu::decode::read::{Metadata, ReadEvent, ReadMessage, ReadStep};
use ffgpu::decode::selector::{FrameStep, FrameTime, Received};
use ffgpu::decode::video::{Message, PollStep, VideoAction, VideoEvent, VideoMetadata};
use ffgpu::decode::{sink_thread, DecoderState, PlayState, SinkStep};
use ffgpu::error::Error;
use ffgpu::playback::{PlaybackState, ReadAction, ReadThread, VideoThread};
use ffgpu::rational::Rational;
use ffgpu::video::{
    delay_change, frame_duration, ClockComparison, ClockSetting, DelayChange, FrameDuration,
    FrameResponse, FrameStart, SeekMode, TimerChange, Video,
};

fn player() -> (Video, DecoderState) {
    let video = VideoMetadata {
        index: 0,
        time_base: Rational::new(1, 25),
        framerate: Rational::new(25, 1),
        color_space: 1,
        width: 640,
        height: 360,
    };
    Video::new(
        Metadata {
            duration: 5_000_000_000,
        },
        video,
        AudioMetadata::default(),
    )
}

fn clocks() -> (Clock, Clock) {
    (Clock::new(0), Clock::new(0))
}

fn setting() -> ClockSetting {
    ClockSetting {
        pts: 4f64.to_bits(),
        pts_drift: 1f64.to_bits(),
        time: 3f64.to_bits(),
    }
}

#[test]
fn new_players_play() {
    let (player, state) = player();
    assert!(!player.paused(&state));
    assert!(!player.looping());
    assert_eq!(player.width(&state), 640);
    assert_eq!(player.height(&state), 360);
    assert_eq!(player.duration(&state), 5_000_000_000);
    assert!(state.alive && !state.is_eof);
    assert_eq!(state.play_state(), PlayState::Playing);
}

#[test]
fn pause_is_what_was_set() {
    let (player, mut state) = player();
    let (mut video, mut audio) = clocks();
    player.set_paused(&mut state, &mut video, &mut audio, true, setting());
    assert!(player.paused(&state));
    assert!(video.paused && audio.paused);
    assert_eq!(video.last_updated, 0);
    player.set_paused(&mut state, &mut video, &mut audio, false, setting());
    assert!(!player.paused(&state));
    assert!(!video.paused && !audio.paused);
    assert_eq!(video.pts, 4f64.to_bits());
    assert_eq!(video.pts_drift, 1f64.to_bits());
    assert_eq!(video.last_updated, 3f64.to_bits());
    assert_eq!(video.serial, u32::MAX);
    assert_eq!(audio.last_updated, 0);
}

#[test]
fn a_step_shows_one_frame_and_pauses() {
    let (mut player, mut state) = player();
    let (mut video, mut audio) = clocks();
    player.step_one_frame(&mut state, &mut video, &mut audio, setting());
    assert_eq!(state.play_state(), PlayState::Step);
    assert!(player.paused(&state));
    // late frames are shown all the same
    assert_eq!(
        player.update_frame(&state, FrameStart::First, 3, false, true),
        FrameResponse::Continue
    );
    player.frame_shown(&mut state, &mut video, &mut audio);
    assert_eq!(state.play_state(), PlayState::Paused);
    assert!(video.paused && audio.paused);
    assert_eq!(player.step_needs_copy, 4);
    for left in [3, 2, 1, 0] {
        let start = player.begin_update(&mut state);
        assert!(start.copy && start.wait);
        assert_eq!(player.step_needs_copy, left);
    }
    assert!(!player.begin_update(&mut state).copy);
}

#[test]
fn copies_are_bounded() {
    let (mut player, mut state) = player();
    let (mut video, mut audio) = clocks();
    for expected in [4, 8, 12, 16, 16] {
        state.play_state = PlayState::Step;
        player.frame_shown(&mut state, &mut video, &mut audio);
        assert_eq!(player.step_needs_copy, expected);
    }
    state.play_state = PlayState::Playing;
    assert!(!player.begin_update(&mut state).copy);
    assert_eq!(player.step_needs_copy, 0);
    player.frame_shown(&mut state, &mut video, &mut audio);
    assert_eq!(player.step_needs_copy, 0);
}

#[test]
fn looping_players_start_anew_at_the_end() {
    let (mut player, mut state) = player();
    let start = player.begin_update(&mut state);
    assert!(start.wait && start.restart.is_none());
    state.is_eof = true;
    assert_eq!(player.begin_update(&mut state).restart, None);
    player.set_looping(true);
    assert!(player.looping());
    let restart = ReadMessage::SeekStream {
        ts: 0,
        mode: SeekMode::Fast,
    };
    // the frame that was kept and the audio frames are given back
    state.video_stream.frames.send(9, 0);
    let (frame, _) = player.next_frame(&mut state).unwrap();
    player.finish_frame(&mut state, frame, FrameResponse::Requeue);
    state.audio_stream.frames.send(9, 0);
    let start = player.begin_update(&mut state);
    assert_eq!(start.restart, Some(restart));
    assert!(start.wait);
    assert_eq!(player.queued_frame, None);
    assert_eq!(state.audio_stream.frames.queued_len(), 0);
    state.play_state = PlayState::Paused;
    assert_eq!(player.begin_update(&mut state).restart, None);
    state.play_state = PlayState::Playing;
    state.video_stream.frames.send(1, 0);
    let start = player.begin_update(&mut state);
    assert!(start.restart.is_none() && !start.wait);
}

#[test]
fn early_frames_are_looked_at_again() {
    let (mut player, mut state) = player();
    state.video_stream.frames.send(10, 0);
    state.video_stream.frames.send(20, 0);
    let (frame, queued) = player.next_frame(&mut state).unwrap();
    assert_eq!((frame.timestamp, queued), (10, 2));
    let response = player.update_frame(&state, FrameStart::Following, queued, true, false);
    assert_eq!(response, FrameResponse::Requeue);
    assert!(!player.finish_frame(&mut state, frame, response));
    assert_eq!(player.last_pts, 0);
    let (again, queued) = player.next_frame(&mut state).unwrap();
    assert_eq!((again, queued), (frame, 1));
    assert!(!player.finish_frame(&mut state, again, FrameResponse::Continue));
    assert_eq!(player.last_pts, 10);
    let (next, queued) = player.next_frame(&mut state).unwrap();
    assert_eq!((next.timestamp, queued), (20, 1));
    assert!(player.finish_frame(&mut state, next, FrameResponse::Retry));
    assert_eq!(player.last_pts, 20);
    assert_eq!(player.next_frame(&mut state), None);
}

#[test]
fn late_frames_are_dropped_while_others_wait() {
    let (player, state) = player();
    assert_eq!(
        player.update_frame(&state, FrameStart::Following, 1, false, true),
        FrameResponse::Retry
    );
    assert_eq!(
        player.update_frame(&state, FrameStart::Following, 0, false, true),
        FrameResponse::Continue
    );
    assert_eq!(
        player.update_frame(&state, FrameStart::Following, 1, false, false),
        FrameResponse::Continue
    );
}

#[test]
fn frames_from_before_a_seek_are_outdated() {
    let (mut player, mut state) = player();
    state.video_stream.frames.send(10, 0);
    let (frame, _) = player.next_frame(&mut state).unwrap();
    assert_eq!(player.frame_start(&state, &frame), FrameStart::Following);
    state.video_stream.packets.flush();
    assert_eq!(player.frame_start(&state, &frame), FrameStart::Outdated);
    assert_eq!(
        player.update_frame(&state, FrameStart::Outdated, 0, true, false),
        FrameResponse::Retry
    );
    player.finish_frame(&mut state, frame, FrameResponse::Retry);
    state.video_stream.frames.send(11, 1);
    let (frame, _) = player.next_frame(&mut state).unwrap();
    assert_eq!(player.frame_start(&state, &frame), FrameStart::First);
}

#[test]
fn durations_and_delays() {
    let framerate = Rational::new(30000, 1001);
    assert_eq!(frame_duration(false, framerate), FrameDuration::Measured);
    assert_eq!(
        frame_duration(true, framerate),
        FrameDuration::Nominal(Rational::new(1001, 30000))
    );
    assert_eq!(
        frame_duration(true, Rational::new(0, 1)),
        FrameDuration::Zero
    );
    assert_eq!(
        delay_change(ClockComparison::Unknown, true),
        DelayChange::Keep
    );
    assert_eq!(
        delay_change(ClockComparison::InSync, false),
        DelayChange::Keep
    );
    assert_eq!(
        delay_change(ClockComparison::VideoBehind, true),
        DelayChange::CatchUp
    );
    assert_eq!(
        delay_change(ClockComparison::VideoAhead, true),
        DelayChange::Extend
    );
    assert_eq!(
        delay_change(ClockComparison::VideoAhead, false),
        DelayChange::Double
    );
}

#[test]
fn seeks_go_no_further_than_the_end() {
    let (mut player, mut state) = player();
    state.video_stream.frames.send(1, 0);
    state.video_stream.frames.send(2, 0);
    state.audio_stream.frames.send(1, 0);
    let (frame, _) = player.next_frame(&mut state).unwrap();
    player.finish_frame(&mut state, frame, FrameResponse::Requeue);
    let micros = |nanos: u128| (nanos / 1000) as i64;
    assert_eq!(
        player.seek(&mut state, 9_000_000_000, SeekMode::Fast, micros),
        ReadMessage::SeekStream {
            ts: 5_000_000,
            mode: SeekMode::Fast
        }
    );
    assert_eq!(
        player.seek(&mut state, 1_000_000_000, SeekMode::Accurate, micros),
        ReadMessage::SeekStream {
            ts: 1_000_000,
            mode: SeekMode::Accurate
        }
    );
    assert_eq!(player.queued_frame, None);
    assert_eq!(state.video_stream.frames.queued_len(), 0);
    assert_eq!(state.audio_stream.frames.queued_len(), 0);
    // every slot can be filled again
    for i in 0..18 {
        assert!(state.video_stream.frames.send(i, 1).is_some());
    }
    assert_eq!(state.video_stream.frames.send(0, 1), None);
}

#[test]
fn closed_players_end_their_threads() {
    let (mut player, mut state) = player();
    state.video_stream.frames.send(1, 0);
    player.close(&mut state);
    assert!(!state.alive);
    assert_eq!(state.video_stream.frames.queued_len(), 0);
}

#[test]
fn silent_playback_state() {
    let mut state = PlaybackState::new();
    assert!(state.alive && !state.is_eof);
    assert_eq!(state.current_pts, 0);
    assert_eq!(state.play_state(), PlayState::Playing);
    state.kill();
    assert!(!state.alive);
}

#[test]
fn silent_reader() {
    let mut state = PlaybackState::new();
    let mut packets = PacketQueue::new(3);
    let frames = FrameQueue::new(2);
    let time_base = Rational::new(1, 25);
    let mut reader = ReadThread::new();
    assert!(reader.begin_round(&state));
    assert!(reader.packet_read(&mut state, &mut packets, 3, 8, 1));
    assert!(!reader.packet_read(&mut state, &mut packets, 4, 9, 1));
    assert_eq!(packets.len(), 1);
    reader.read_failed(&mut state, &mut packets, true);
    reader.read_failed(&mut state, &mut packets, true);
    assert!(state.is_eof);
    assert_eq!(packets.len(), 2);
    assert_eq!(
        reader.next_step(&state, &packets, &frames, time_base),
        ReadStep::Wait
    );
    state.play_state = PlayState::Paused;
    reader.begin_round(&state);
    assert_eq!(
        reader.next_step(&state, &packets, &frames, time_base),
        ReadStep::Read
    );
    assert_eq!(
        reader.seeked(&mut state, &mut packets, -5).err(),
        Some(Error::FFmpeg(-5))
    );
    assert_eq!(packets.len(), 2);
    let dropped = reader.seeked(&mut state, &mut packets, 0).ok().unwrap();
    assert_eq!(dropped.len(), 2);
    assert!(!state.is_eof);
    // a paused player stays paused
    assert_eq!(state.play_state(), PlayState::Paused);
    let null = packets.try_receive().unwrap();
    assert_eq!((null.handle, null.serial), (NULL_HANDLE, 1));
    for i in 0..30 {
        packets.push(i + 1, 1);
    }
    assert_eq!(
        reader.next_step(&state, &packets, &frames, time_base),
        ReadStep::Wait
    );
}

#[test]
fn silent_decoder() {
    let mut state = PlaybackState::new();
    let mut frames = FrameQueue::new(2);
    let mut thread = VideoThread::new();
    state.play_state = PlayState::Paused;
    thread.message(Message::SkipToTimestamp(100));
    thread.begin_round();
    assert_eq!(thread.poll(&state, &frames), PollStep::Receive);
    let early = Received::Frame(Some(FrameTime { pts: 1, micros: 99 }));
    assert_eq!(thread.received(early), FrameStep::Hold);
    // a frame without a time does not end the skipping
    assert_eq!(thread.received(Received::Frame(None)), FrameStep::Show(None));
    assert_eq!(thread.present(&mut state, &mut frames, None, 0), Some(0));
    assert_eq!(thread.selector.skip_to, Some(100));
    assert_eq!(state.play_state(), PlayState::Paused);
    assert_eq!(thread.received(Received::Eof), FrameStep::ShowHeld(1));
    assert_eq!(thread.present(&mut state, &mut frames, Some(1), 1), Some(1));
    assert_eq!(state.play_state(), PlayState::Step);
    assert_eq!(state.current_pts, 1);
    assert_eq!(thread.poll(&state, &frames), PollStep::Wait);
    assert_eq!(thread.present(&mut state, &mut frames, Some(5), 5), None);
    assert_eq!(state.current_pts, 1);
    let mut packets = PacketQueue::new(0);
    packets.push(4, 1);
    let packet = packets.try_receive().unwrap();
    packets.flush();
    let step = thread.packet_received(packet, packets.serial());
    assert!(!step.flush && !step.decode);
    state.kill();
    assert_eq!(thread.poll(&state, &frames), PollStep::End);
}

#[test]
fn silent_threads_go_through_their_rounds() {
    let mut state = PlaybackState::new();
    let mut packets = PacketQueue::new(3);
    let mut frames = FrameQueue::new(1);
    let time_base = Rational::new(1, 25);
    let mut reader = ReadThread::new();
    let mut decoder = VideoThread::new();
    let mut events = vec![
        ReadEvent::Resumed,
        ReadEvent::Resumed,
        ReadEvent::Packet {
            stream_index: 3,
            handle: 5,
            duration: 1,
        },
        ReadEvent::Resumed,
        ReadEvent::Resumed,
        ReadEvent::Failed { at_end: true },
    ]
    .into_iter();
    for expected in [
        ReadAction::Seek,
        ReadAction::Read,
        ReadAction::Routed { queued: true },
        ReadAction::Seek,
        ReadAction::Read,
        ReadAction::Sleep,
    ] {
        let event = events.next().unwrap();
        let action = reader.step(&mut state, &mut packets, &frames, time_base, event);
        assert_eq!(action, expected);
    }
    assert!(state.is_eof);
    assert_eq!(packets.len(), 2);

    let resumed = VideoEvent::Resumed;
    let mut step = |state: &mut PlaybackState, packets: &mut PacketQueue, event| {
        decoder.step(state, packets, &mut frames, event)
    };
    let answer = |received| VideoEvent::Answered {
        received,
        behind_master: true,
        clock_serial: 0,
    };
    assert_eq!(step(&mut state, &mut packets, resumed), VideoAction::BeginRound);
    assert_eq!(step(&mut state, &mut packets, resumed), VideoAction::Receive);
    let again = answer(Received::Again);
    assert_eq!(step(&mut state, &mut packets, again), VideoAction::Proceed);
    assert!(matches!(
        step(&mut state, &mut packets, resumed),
        VideoAction::Decode { packet, flush: false } if packet.handle == 5
    ));
    assert_eq!(step(&mut state, &mut packets, resumed), VideoAction::BeginRound);
    let frame = answer(Received::Frame(Some(FrameTime { pts: 9, micros: 9 })));
    // there is nothing to be late against
    assert_eq!(step(&mut state, &mut packets, frame), VideoAction::Show);
    let ready = VideoEvent::Ready {
        pts: Some(9),
        timestamp: 9,
    };
    assert_eq!(step(&mut state, &mut packets, ready), VideoAction::Queue(0));
    assert_eq!(state.current_pts, 9);
    assert_eq!(step(&mut state, &mut packets, resumed), VideoAction::Sleep);
    state.kill();
    assert_eq!(step(&mut state, &mut packets, resumed), VideoAction::End);
    let action = reader.step(
        &mut state,
        &mut packets,
        &FrameQueue::new(1),
        time_base,
        ReadEvent::Resumed,
    );
    assert_eq!(action, ReadAction::End);
}

#[test]
fn due_frames_set_the_clock() {
    let (mut player, mut state) = player();
    let mut clock = Clock::new(0);
    let unset = clock;
    state.video_stream.packets.flush();
    state.video_stream.frames.send(10, 1);
    let (frame, _) = player.next_frame(&mut state).unwrap();
    let start = player.frame_start(&state, &frame);
    assert_eq!(
        player.frame_due(&mut clock, &frame, start, true, true, setting()),
        TimerChange::Keep
    );
    assert_eq!(clock, unset);
    assert_eq!(
        player.frame_due(&mut clock, &frame, FrameStart::Outdated, false, false, setting()),
        TimerChange::Restart
    );
    assert_eq!(clock, unset);
    assert_eq!(
        player.frame_due(&mut clock, &frame, start, false, false, setting()),
        TimerChange::Advance
    );
    assert_eq!(clock.serial, 1);
    assert_eq!(clock.pts, 4f64.to_bits());
    assert_eq!(clock.pts_drift, 1f64.to_bits());
    assert_eq!(clock.last_updated, 3f64.to_bits());
    assert_ne!(clock.get(1), ClockReading::Unavailable);
    assert_eq!(clock.get(2), ClockReading::Unavailable);
    assert_eq!(
        player.frame_due(&mut clock, &frame, start, false, true, setting()),
        TimerChange::Restart
    );
}

#[test]
fn packets_that_nothing_decodes_are_dropped() {
    let mut packets = PacketQueue::new(0);
    assert_eq!(sink_thread(true, &mut packets), SinkStep::Wait);
    packets.push(6, 1);
    packets.push(7, 1);
    assert!(matches!(
        sink_thread(true, &mut packets),
        SinkStep::Drop(packet) if packet.handle == 6
    ));
    assert_eq!(sink_thread(false, &mut packets), SinkStep::End);
    assert_eq!(packets.len(), 1);
}
