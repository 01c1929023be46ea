use ffgpu::context::layout::PixelFormat;
use ffgpu::decode::audio::{
    resampled_pts, resampler_input_pts, AudioFrame, AudioMetadata, AudioParameters, AudioSink,
    AudioAction, AudioEvent, AudioThread, Message as AudioMessage, ResamplerPlan, PACKED_FLOAT,
};
use ffgpu::decode::packet_queue::{Packet, NULL_HANDLE};
use ffgpu::decode::read::{
    Metadata, ReadAction, ReadEvent, ReadMessage, ReadStep, ReadThread, Route,
};
use ffgpu::decode::selector::{FrameSelector, FrameStep, FrameTime, Received};
use ffgpu::decode::video::{
    find_stream, get_hw_format, select_hw_format, Decoder, HwChoice, HwConfig, Message, PollStep,
    VideoAction, VideoEvent, VideoMetadata, VideoThread, NO_DEVICE,
};
use ffgpu::decode::{DecoderState, PlayState};
use ffgpu::error::Error;
use ffgpu::rational::Rational;
use ffgpu::video::{SeekMode, Video};

fn video_metadata() -> VideoMetadata {
    VideoMetadata {
        index: 0,
        time_base: Rational::new(1, 25),
        framerate: Rational::new(25, 1),
        color_space: 1,
        width: 640,
        height: 360,
    }
}

fn audio_metadata() -> AudioMetadata {
    AudioMetadata {
        index: 1,
        time_base: Rational::new(1, 44100),
        sample_rate: 44100,
        channels: 2,
        format: 8,
        channel_layout: 3,
        frame_size: 1024,
    }
}

fn state() -> DecoderState {
    Video::new(
        Metadata {
            duration: 60_000_000_000,
        },
        video_metadata(),
        audio_metadata(),
    )
    .1
}

fn timed(pts: i64, micros: i64) -> Received {
    Received::Frame(Some(FrameTime { pts, micros }))
}

#[test]
fn metadata_of_missing_streams() {
    let video = VideoMetadata::default();
    assert_eq!(video.index, usize::MAX);
    assert_eq!(video.time_base, Rational::new(0, 1));
    assert_eq!(video.color_space, 2);
    let audio = AudioMetadata::default();
    assert_eq!(audio.index, usize::MAX);
    assert_eq!(audio.format, -1);
    assert_eq!(audio.channel_layout, 3);
}

#[test]
fn packets_reach_their_stream() {
    let mut state = state();
    let reader = ReadThread::new();
    state.is_eof = true;
    assert_eq!(reader.packet_read(&mut state, 0, 5, 1), Route::Video);
    assert!(!state.is_eof);
    assert_eq!(reader.packet_read(&mut state, 1, 6, 1024), Route::Audio);
    assert_eq!(reader.packet_read(&mut state, 2, 7, 1), Route::Discarded);
    assert_eq!(state.video_stream.packets.len(), 1);
    assert_eq!(state.audio_stream.packets.len(), 1);
    assert_eq!(state.video_stream.packets.try_receive().unwrap().handle, 5);
    assert_eq!(state.audio_stream.packets.try_receive().unwrap().handle, 6);
}

#[test]
fn reader_waits_when_both_queues_are_full() {
    let mut state = state();
    let mut reader = ReadThread::new();
    assert!(reader.begin_round(&state));
    for i in 0..30 {
        reader.packet_read(&mut state, 0, i + 1, 1);
    }
    // the audio queue is empty
    assert_eq!(reader.next_step(&state), ReadStep::Read);
    for i in 0..44 {
        reader.packet_read(&mut state, 1, i + 1, 1024);
    }
    assert_eq!(reader.next_step(&state), ReadStep::Wait);
    state.video_stream.packets.flush();
    assert_eq!(reader.next_step(&state), ReadStep::Read);
}

#[test]
fn end_of_input_is_told_once() {
    let mut state = state();
    let mut reader = ReadThread::new();
    reader.begin_round(&state);
    reader.read_failed(&mut state, false);
    assert!(!state.is_eof);
    assert!(state.video_stream.packets.is_empty());
    reader.read_failed(&mut state, true);
    reader.read_failed(&mut state, true);
    assert!(state.is_eof);
    assert_eq!(state.video_stream.packets.len(), 1);
    assert_eq!(state.audio_stream.packets.len(), 1);
    assert_eq!(
        state.video_stream.packets.try_receive().unwrap().handle,
        NULL_HANDLE
    );
    // everything was read and shown
    assert_eq!(reader.next_step(&state), ReadStep::Wait);
    state.video_stream.frames.send(0, 0);
    assert_eq!(reader.next_step(&state), ReadStep::Read);
}

#[test]
fn seek_restarts_both_streams() {
    let mut state = state();
    let mut reader = ReadThread::new();
    reader.begin_round(&state);
    reader.packet_read(&mut state, 0, 5, 1);
    reader.packet_read(&mut state, 1, 6, 1);
    reader.packet_read(&mut state, 1, 7, 1);
    let message = ReadMessage::SeekStream {
        ts: 1_500_000,
        mode: SeekMode::Accurate,
    };
    let seeked = reader.seeked(&mut state, message, 0).ok().unwrap();
    assert_eq!(seeked.skip_to, Some(1_500_000));
    assert_eq!(seeked.dropped_video.len(), 1);
    assert_eq!(seeked.dropped_audio[1].handle, 7);
    assert_eq!(state.video_stream.packets.serial(), 1);
    assert_eq!(
        state.audio_stream.packets.try_receive(),
        Some(Packet {
            handle: NULL_HANDLE,
            duration: 0,
            serial: 1
        })
    );
    assert_eq!(state.play_state(), PlayState::Playing);
}

#[test]
fn fast_seek_skips_nothing_and_a_refused_one_changes_nothing() {
    let mut state = state();
    state.play_state = PlayState::Paused;
    let mut reader = ReadThread::new();
    reader.begin_round(&state);
    let message = ReadMessage::SeekStream {
        ts: 7,
        mode: SeekMode::Fast,
    };
    assert_eq!(
        reader.seeked(&mut state, message, -1).err(),
        Some(Error::FFmpeg(-1))
    );
    assert_eq!(state.video_stream.packets.serial(), 0);
    assert_eq!(state.play_state(), PlayState::Paused);
    let seeked = reader.seeked(&mut state, message, 0).ok().unwrap();
    assert_eq!(seeked.skip_to, None);
    assert_eq!(state.play_state(), PlayState::Step);
}

#[test]
fn reader_wakes_the_decoders_when_it_ends() {
    let mut state = state();
    state.kill();
    let mut reader = ReadThread::new();
    assert!(!reader.begin_round(&state));
    reader.finish(&mut state);
    assert_eq!(state.video_stream.packets.len(), 1);
    assert_eq!(state.audio_stream.packets.len(), 1);
}

#[test]
fn frames_before_the_target_are_held() {
    let mut selector = FrameSelector::new();
    selector.skip_to = Some(1000);
    assert_eq!(selector.select(timed(1, 100), false), FrameStep::Hold);
    assert_eq!(selector.select(timed(2, 999), true), FrameStep::Hold);
    assert_eq!(selector.held, Some(2));
    assert_eq!(
        selector.select(timed(3, 1000), false),
        FrameStep::Show(Some(3))
    );
    assert_eq!(selector.held, None);
}

#[test]
fn last_frame_stands_in_for_the_end() {
    let mut selector = FrameSelector::new();
    selector.skip_to = Some(1000);
    selector.select(timed(1, 100), false);
    selector.select(timed(2, 200), false);
    assert_eq!(
        selector.select(Received::Eof, false),
        FrameStep::ShowHeld(2)
    );
    assert_eq!(
        selector.select(Received::Eof, false),
        FrameStep::FlushAndFetch
    );
}

#[test]
fn other_answers_of_a_decoder() {
    let mut selector = FrameSelector::new();
    assert_eq!(selector.select(Received::Again, false), FrameStep::Fetch);
    assert_eq!(selector.select(Received::Failed, false), FrameStep::Ignore);
    assert_eq!(
        selector.select(Received::Frame(None), true),
        FrameStep::Show(None)
    );
    assert_eq!(selector.select(timed(1, 1), true), FrameStep::Drop);
}

#[test]
fn late_frames_are_dropped_while_more_packets_wait() {
    let mut state = state();
    let mut thread = VideoThread::new();
    assert_eq!(
        thread.received(&state, timed(1, 40_000), true, 0),
        FrameStep::Show(Some(1))
    );
    state.video_stream.packets.push(1, 1);
    assert_eq!(
        thread.received(&state, timed(1, 40_000), true, 0),
        FrameStep::Drop
    );
    // the clock follows other packets
    assert_eq!(
        thread.received(&state, timed(1, 40_000), true, 3),
        FrameStep::Show(Some(1))
    );
    assert_eq!(
        thread.received(&state, timed(1, 40_000), false, 0),
        FrameStep::Show(Some(1))
    );
}

#[test]
fn accurate_seek_steps_a_paused_player() {
    let mut state = state();
    state.play_state = PlayState::Paused;
    let mut thread = VideoThread::new();
    thread.message(Message::SkipToTimestamp(80_000));
    thread.begin_round();
    assert_eq!(
        thread.received(&state, timed(1, 40_000), false, 0),
        FrameStep::Hold
    );
    assert_eq!(
        thread.received(&state, timed(2, 80_000), false, 0),
        FrameStep::Show(Some(2))
    );
    assert_eq!(thread.present(&mut state, Some(2), 2), Some(0));
    assert_eq!(state.play_state(), PlayState::Step);
    assert_eq!(state.current_pts, 2);
    assert_eq!(thread.selector.skip_to, None);
    assert_eq!(state.video_stream.frames.queued_len(), 1);
    // without a target the player stays as it is
    state.play_state = PlayState::Paused;
    thread.present(&mut state, Some(3), 3);
    assert_eq!(state.play_state(), PlayState::Paused);
}

#[test]
fn video_thread_waits_for_a_free_slot() {
    let mut state = state();
    let mut thread = VideoThread::new();
    assert_eq!(thread.poll(&state), PollStep::Receive);
    for i in 0..18 {
        assert!(thread.present(&mut state, Some(i), i).is_some());
    }
    assert_eq!(thread.poll(&state), PollStep::Wait);
    assert_eq!(thread.present(&mut state, Some(99), 99), None);
    assert_eq!(state.current_pts, 17);
    state.kill();
    assert_eq!(thread.poll(&state), PollStep::End);
}

#[test]
fn a_frame_without_a_time_keeps_the_position() {
    let mut state = state();
    let mut thread = VideoThread::new();
    state.current_pts = 12;
    thread.message(Message::SkipToTimestamp(5));
    state.play_state = PlayState::Paused;
    assert_eq!(thread.present(&mut state, None, 0), Some(0));
    assert_eq!(state.current_pts, 12);
    assert_eq!(state.play_state(), PlayState::Paused);
    assert_eq!(thread.selector.skip_to, None);
}

#[test]
fn decoder_follows_the_generation_of_its_packets() {
    let mut thread = VideoThread::new();
    let packet = Packet {
        handle: 3,
        duration: 1,
        serial: 2,
    };
    let step = thread.packet_received(packet, 2);
    assert!(step.flush && step.decode);
    assert_eq!(thread.packet_serial, 2);
    let step = thread.packet_received(packet, 3);
    assert!(!step.flush && !step.decode);
}

#[test]
fn streams_and_codecs_are_found_or_not() {
    assert_eq!(find_stream(None, "h264", true), Err(Error::InvalidStream));
    assert_eq!(
        find_stream(Some(2), "h264", false),
        Err(Error::MissingCodec("h264"))
    );
    assert_eq!(find_stream(Some(2), "h264", true), Ok(2));
}

fn config(methods: u32, device_type: i32, pix_fmt: PixelFormat) -> HwConfig {
    HwConfig {
        methods,
        device_type,
        pix_fmt,
    }
}

#[test]
fn hardware_format_is_that_of_the_first_fitting_configuration() {
    let configs = vec![
        config(2, 3, PixelFormat::D3d11),
        config(3, 4, PixelFormat::VideoToolbox),
        config(5, 3, PixelFormat::Vaapi),
        config(1, 3, PixelFormat::Nv12),
    ];
    assert_eq!(
        select_hw_format(&configs, 3, "h264"),
        Ok(PixelFormat::Vaapi)
    );
    assert_eq!(
        select_hw_format(&configs, 9, "h264"),
        Err(Error::MissingCodec("h264"))
    );
    // the seventeenth configuration is not looked at
    let mut many = vec![config(1, 3, PixelFormat::Nv12); 16];
    many.push(config(1, 9, PixelFormat::Vaapi));
    assert_eq!(
        select_hw_format(&many, 9, "h264"),
        Ok(PixelFormat::Absent)
    );
}

#[test]
fn offered_formats_end_with_the_absent_one() {
    let offered = vec![
        PixelFormat::Yuv420p,
        PixelFormat::Vaapi,
        PixelFormat::Absent,
        PixelFormat::D3d11,
    ];
    assert_eq!(
        get_hw_format(&offered, PixelFormat::Vaapi),
        HwChoice {
            format: PixelFormat::Vaapi,
            unsupported: false
        }
    );
    let none = HwChoice {
        format: PixelFormat::Absent,
        unsupported: true,
    };
    assert_eq!(get_hw_format(&offered, PixelFormat::D3d11), none);
    assert_eq!(get_hw_format(&offered, PixelFormat::Absent), none);
    assert_eq!(get_hw_format(&vec![], PixelFormat::Vaapi), none);
}

#[test]
fn decoders_use_hardware_where_there_is_a_device() {
    let configs = vec![config(1, 3, PixelFormat::Vaapi)];
    let software = Decoder::new(video_metadata(), NO_DEVICE, &configs, "h264", false)
        .ok()
        .unwrap();
    assert_eq!(software.hw_pixel_format, None);
    assert!(!software.falls_back(true));
    let hardware = Decoder::new(video_metadata(), 3, &configs, "h264", true)
        .ok()
        .unwrap();
    assert_eq!(hardware.hw_pixel_format, Some(PixelFormat::Vaapi));
    assert!(hardware.falls_back(true));
    assert!(!hardware.falls_back(false));
    assert_eq!(
        Decoder::new(video_metadata(), 3, &configs, "h264", false).err(),
        Some(Error::HardwareContext)
    );
    assert_eq!(
        Decoder::new(video_metadata(), 5, &configs, "h264", true).err(),
        Some(Error::MissingCodec("h264"))
    );
}

#[test]
fn resamplers_are_made_for_new_parameters() {
    let mut thread = AudioThread::new();
    let parameters = AudioParameters {
        sample_rate: 48000,
        channels: 6,
    };
    assert_eq!(
        thread.update_parameters(&audio_metadata(), parameters),
        Some(ResamplerPlan {
            in_format: 8,
            in_layout: 3,
            in_rate: 44100,
            out_format: PACKED_FLOAT,
            out_layout: 0x3f,
            out_channels: 6,
            out_rate: 48000
        })
    );
    // 1024 * 48000 / 44100
    assert_eq!(thread.resampler_made(&audio_metadata(), parameters), 1114);
    assert_eq!(thread.update_parameters(&audio_metadata(), parameters), None);
    let mono = AudioParameters {
        sample_rate: 48000,
        channels: 0,
    };
    assert_eq!(
        thread
            .update_parameters(&audio_metadata(), mono)
            .unwrap()
            .out_layout,
        0
    );
    let widest = AudioParameters {
        sample_rate: 48000,
        channels: 63,
    };
    assert_eq!(
        thread
            .update_parameters(&audio_metadata(), widest)
            .unwrap()
            .out_layout,
        u64::MAX >> 1
    );
}

#[test]
fn resampled_times_are_rounded_toward_zero() {
    assert_eq!(resampler_input_pts(-7, 48000), -336000);
    assert_eq!(resampled_pts(100_000, 44100), 2);
    assert_eq!(resampled_pts(-100_000, 44100), -2);
    assert_eq!(resampled_pts(i64::MIN, 1), i64::MIN);
    for next in [i64::MIN, -44101, -44100, -1, 0, 1, 44099, 44100, i64::MAX] {
        assert_eq!(resampled_pts(next, 44100), next / 44100);
    }
}

#[test]
fn audio_thread_flushes_when_the_queue_moved_on() {
    let mut state = state();
    let mut thread = AudioThread::new();
    assert!(!thread.poll(&state).flush);
    assert_eq!(thread.poll(&state).step, PollStep::Receive);
    state.audio_stream.packets.flush();
    assert!(thread.poll(&state).flush);
    for i in 0..16 {
        assert!(thread.present(&mut state, i).is_some());
    }
    assert_eq!(thread.poll(&state).step, PollStep::Wait);
    assert_eq!(thread.present(&mut state, 0), None);
    let packet = state.audio_stream.packets.try_receive();
    assert_eq!(packet, None);
    state.kill();
    assert_eq!(thread.poll(&state).step, PollStep::End);
    assert!(!thread.poll(&state).flush);
}

#[test]
fn audio_skips_too() {
    let mut state = state();
    let mut thread = AudioThread::new();
    thread.skip_to_timestamp(500);
    thread.begin_round();
    assert_eq!(thread.received(timed(1, 499)), FrameStep::Hold);
    assert_eq!(thread.received(Received::Eof), FrameStep::ShowHeld(1));
    assert_eq!(thread.present(&mut state, 1), Some(0));
    assert_eq!(thread.selector, FrameSelector::new());
    let step = thread.packet_received(
        Packet {
            handle: 1,
            duration: 0,
            serial: 0,
        },
        0,
    );
    assert!(!step.flush && step.decode);
}

fn audio_frame(samples: Vec<u32>, end_time: Option<f64>) -> AudioFrame {
    AudioFrame {
        rate: 48000,
        format: PACKED_FLOAT,
        channels: 2,
        end_time: end_time.map(f64::to_bits),
        samples,
    }
}

fn table() -> Vec<AudioFrame> {
    (0..16u32)
        .map(|i| audio_frame(vec![2 * i, 2 * i + 1], Some(i as f64)))
        .collect()
}

#[test]
fn sinks_start_at_48_khz() {
    let (mut sink, message) = AudioSink::new();
    let stereo = AudioParameters {
        sample_rate: 48000,
        channels: 2,
    };
    assert_eq!(sink.parameters(), stereo);
    assert_eq!(message, Some(AudioMessage::UpdateParameters(stereo)));
    assert_eq!(sink.set_parameters(stereo), None);
    let mono = AudioParameters {
        sample_rate: 22050,
        channels: 1,
    };
    assert_eq!(
        sink.set_parameters(mono),
        Some(AudioMessage::UpdateParameters(mono))
    );
    assert_eq!(sink.parameters(), mono);
    let state = state();
    assert_eq!(sink.sample_rate(&state), 44100);
    assert_eq!(sink.channels(&state), 2);
}

#[test]
fn samples_come_out_in_order() {
    let mut state = state();
    let mut thread = AudioThread::new();
    for _ in 0..3 {
        thread.present(&mut state, 0);
    }
    let (mut sink, _) = AudioSink::new();
    let table = table();
    let output = sink.read_to_slice(&mut state, &table, 3);
    assert_eq!(output.samples, Some(vec![0, 1, 2]));
    let clock = output.clock.unwrap();
    assert_eq!(clock.end_time, 1f64.to_bits());
    assert_eq!(clock.buffered, 1);
    assert_eq!(clock.target_rate, 96000);
    assert_eq!(clock.serial, 0);
    assert_eq!(state.audio_stream.frames.queued_len(), 1);
    let output = sink.read_to_slice(&mut state, &table, 2);
    assert_eq!(output.samples, Some(vec![3, 4]));
    // one sample is left: too few, so silence is played and it stays
    let output = sink.read_to_slice(&mut state, &table, 2);
    assert_eq!(output.samples, None);
    assert_eq!(output.clock, None);
    let output = sink.read_to_slice(&mut state, &table, 1);
    assert_eq!(output.samples, Some(vec![5]));
}

#[test]
fn paused_players_are_silent() {
    let mut state = state();
    let mut thread = AudioThread::new();
    thread.present(&mut state, 0);
    state.play_state = PlayState::Paused;
    let (mut sink, _) = AudioSink::new();
    let output = sink.read_to_slice(&mut state, &table(), 1);
    assert_eq!(output.samples, None);
    assert_eq!(state.audio_stream.frames.queued_len(), 1);
}

#[test]
fn outdated_frames_are_not_heard() {
    let mut state = state();
    let mut thread = AudioThread::new();
    thread.present(&mut state, 0);
    thread.present(&mut state, 0);
    state.audio_stream.packets.flush();
    thread.packet_serial = 1;
    thread.present(&mut state, 0);
    let (mut sink, _) = AudioSink::new();
    let output = sink.read_to_slice(&mut state, &table(), 2);
    // the third frame lies in the third slot
    assert_eq!(output.samples, Some(vec![4, 5]));
    assert_eq!(output.clock.unwrap().serial, 1);
}

#[test]
fn frames_of_another_form_are_discarded() {
    let mut state = state();
    let mut thread = AudioThread::new();
    thread.present(&mut state, 0);
    thread.present(&mut state, 0);
    let mut table = table();
    table[0].rate = 44100;
    let (mut sink, _) = AudioSink::new();
    let output = sink.read_to_slice(&mut state, &table, 2);
    assert_eq!(output.samples, None);
    assert_eq!(state.audio_stream.frames.queued_len(), 1);
    let output = sink.read_to_slice(&mut state, &table, 2);
    assert_eq!(output.samples, Some(vec![2, 3]));
}

#[test]
fn frames_without_a_time_do_not_set_the_clock() {
    let mut state = state();
    let mut thread = AudioThread::new();
    thread.present(&mut state, 0);
    let mut table = table();
    table[0].end_time = None;
    let (mut sink, _) = AudioSink::new();
    let output = sink.read_to_slice(&mut state, &table, 2);
    assert_eq!(output.samples, Some(vec![0, 1]));
    assert_eq!(output.clock, None);
}

#[test]
fn reading_thread_goes_through_its_rounds() {
    let mut state = state();
    let mut thread = ReadThread::new();
    assert_eq!(thread.step(&mut state, ReadEvent::Resumed), ReadAction::Seek);
    assert_eq!(thread.step(&mut state, ReadEvent::Resumed), ReadAction::Read);
    let packet = ReadEvent::Packet {
        stream_index: 1,
        handle: 4,
        duration: 1024,
    };
    assert_eq!(
        thread.step(&mut state, packet),
        ReadAction::Routed(Route::Audio)
    );
    assert_eq!(state.audio_stream.packets.len(), 1);
    assert_eq!(thread.step(&mut state, ReadEvent::Resumed), ReadAction::Seek);
    assert_eq!(thread.step(&mut state, ReadEvent::Resumed), ReadAction::Read);
    let failed = ReadEvent::Failed { at_end: true };
    assert_eq!(thread.step(&mut state, failed), ReadAction::Sleep);
    assert!(state.is_eof);
    assert_eq!(state.audio_stream.packets.len(), 2);
    assert_eq!(thread.step(&mut state, ReadEvent::Resumed), ReadAction::Seek);
    assert_eq!(thread.step(&mut state, ReadEvent::Resumed), ReadAction::Sleep);
    state.kill();
    assert_eq!(thread.step(&mut state, ReadEvent::Resumed), ReadAction::End);
    assert_eq!(state.audio_stream.packets.len(), 3);
    assert_eq!(thread.step(&mut state, ReadEvent::Resumed), ReadAction::End);
    assert_eq!(state.audio_stream.packets.len(), 3);
}

fn video_answer(received: Received) -> VideoEvent {
    VideoEvent::Answered {
        received,
        behind_master: false,
        clock_serial: 0,
    }
}

#[test]
fn video_thread_goes_through_its_rounds() {
    let mut state = state();
    let mut thread = VideoThread::new();
    let resumed = VideoEvent::Resumed;
    assert_eq!(thread.step(&mut state, resumed), VideoAction::BeginRound);
    thread.message(Message::SkipToTimestamp(100));
    assert_eq!(thread.step(&mut state, resumed), VideoAction::Receive);
    assert_eq!(
        thread.step(&mut state, video_answer(Received::Again)),
        VideoAction::Proceed
    );
    assert_eq!(thread.step(&mut state, resumed), VideoAction::Sleep);
    state.video_stream.packets.flush();
    state.video_stream.packets.push(6, 1);
    assert_eq!(
        thread.step(&mut state, resumed),
        VideoAction::Decode {
            packet: Packet {
                handle: 6,
                duration: 1,
                serial: 1
            },
            flush: true
        }
    );
    assert_eq!(thread.step(&mut state, resumed), VideoAction::BeginRound);
    assert_eq!(thread.step(&mut state, resumed), VideoAction::Receive);
    assert_eq!(
        thread.step(&mut state, video_answer(timed(1, 99))),
        VideoAction::Hold
    );
    assert_eq!(thread.step(&mut state, resumed), VideoAction::Receive);
    assert_eq!(
        thread.step(&mut state, video_answer(Received::Failed)),
        VideoAction::Drop
    );
    assert_eq!(
        thread.step(&mut state, video_answer(Received::Eof)),
        VideoAction::ShowHeld
    );
    assert_eq!(thread.step(&mut state, resumed), VideoAction::Proceed);
    let ready = VideoEvent::Ready {
        pts: Some(1),
        timestamp: 1,
    };
    assert_eq!(thread.step(&mut state, ready), VideoAction::Queue(0));
    assert_eq!(state.video_stream.frames.try_next().unwrap().serial, 1);
    assert_eq!(state.current_pts, 1);
    assert_eq!(
        thread.step(&mut state, video_answer(timed(2, 3))),
        VideoAction::Show
    );
    state.kill();
    assert_eq!(thread.step(&mut state, ready), VideoAction::Queue(1));
    assert_eq!(thread.step(&mut state, resumed), VideoAction::End);
    assert_eq!(thread.step(&mut state, resumed), VideoAction::End);
}

#[test]
fn video_thread_keeps_its_frame_while_no_slot_is_free() {
    let mut state = state();
    let mut thread = VideoThread::new();
    thread.step(&mut state, VideoEvent::Resumed);
    thread.step(&mut state, video_answer(timed(7, 7)));
    for i in 0..18 {
        state.video_stream.frames.send(i, 0);
    }
    let ready = VideoEvent::Ready {
        pts: Some(7),
        timestamp: 7,
    };
    assert_eq!(thread.step(&mut state, ready), VideoAction::Sleep);
    let frame = state.video_stream.frames.try_next().unwrap();
    state.video_stream.frames.release(frame);
    assert_eq!(thread.step(&mut state, ready), VideoAction::Queue(frame.slot));
    assert_eq!(
        thread.step(&mut state, VideoEvent::Resumed),
        VideoAction::Sleep
    );
    assert_eq!(
        thread.step(&mut state, video_answer(Received::Eof)),
        VideoAction::Flush
    );
}

#[test]
fn audio_thread_goes_through_its_rounds() {
    let mut state = state();
    let mut thread = AudioThread::new();
    let resumed = AudioEvent::Resumed;
    assert_eq!(thread.step(&mut state, resumed), AudioAction::BeginRound);
    state.audio_stream.packets.flush();
    assert_eq!(
        thread.step(&mut state, resumed),
        AudioAction::Receive { flush: true }
    );
    assert_eq!(
        thread.step(&mut state, AudioEvent::Answered(timed(3, 3))),
        AudioAction::Show
    );
    assert_eq!(
        thread.step(&mut state, AudioEvent::Ready { timestamp: 3 }),
        AudioAction::Queue(0)
    );
    assert_eq!(
        thread.step(&mut state, AudioEvent::Answered(Received::Eof)),
        AudioAction::Flush
    );
    assert_eq!(
        thread.step(&mut state, resumed),
        AudioAction::Sleep { flush: false }
    );
    state.audio_stream.packets.push(8, 1024);
    assert_eq!(
        thread.step(&mut state, resumed),
        AudioAction::Decode {
            packet: Packet {
                handle: 8,
                duration: 1024,
                serial: 1
            },
            flush: true
        }
    );
    assert_eq!(thread.step(&mut state, resumed), AudioAction::BeginRound);
    assert_eq!(
        thread.step(&mut state, resumed),
        AudioAction::Receive { flush: false }
    );
    state.kill();
    assert_eq!(thread.step(&mut state, resumed), AudioAction::End);
}

#[test]
fn readings_account_for_every_sample() {
    let mut state = state();
    let mut thread = AudioThread::new();
    let (mut sink, _) = AudioSink::new();
    let mut table = table();
    let mut next = 0;
    let mut queue = |state: &mut DecoderState, table: &mut Vec<AudioFrame>, count: u32| {
        let slot = thread.present(state, 0).unwrap() as usize;
        table[slot].samples = (next..next + count).collect();
        next += count;
    };
    let mut given = vec![];
    // frames come in between, and slots are used again
    for (arriving, wanted) in [(5, 4), (2, 7), (7, 3), (1, 8), (3, 0), (30, 20), (2, 19), (0, 1)] {
        for count in [arriving, 1] {
            queue(&mut state, &mut table, count);
        }
        let output = sink.read_to_slice(&mut state, &table, wanted);
        given.extend(output.samples.unwrap_or_default());
    }
    let short = sink.read_to_slice(&mut state, &table, 1000);
    assert_eq!(short.samples, None);
    assert_eq!(state.audio_stream.frames.queued_len(), 0);
    // the short reading has gathered what was queued
    let total = 5 + 2 + 7 + 1 + 3 + 30 + 2 + 8;
    let rest = total - given.len();
    let output = sink.read_to_slice(&mut state, &table, rest);
    given.extend(output.samples.unwrap());
    assert_eq!(given, (0..total as u32).collect::<Vec<_>>());
}

#[test]
fn rates_of_any_size_are_multiplied() {
    let mut state = state();
    let (mut sink, _) = AudioSink::new();
    sink.set_parameters(AudioParameters {
        sample_rate: u32::MAX,
        channels: u16::MAX,
    });
    state.play_state = PlayState::Paused;
    assert!(sink.read_to_slice(&mut state, &table(), 1).samples.is_none());
    state.play_state = PlayState::Playing;
    let output = sink.read_to_slice(&mut state, &table(), 0);
    assert_eq!(output.clock.unwrap().target_rate, 0xffff_ffff * 0xffff);
}
