use ffgpu::channel::Channel;
use ffgpu::decode::clock::{
    is_not_a_number, Clock, ClockReading, NEVER_SET, NORMAL_SPEED, UNKNOWN_TIME,
};
use ffgpu::decode::frame_queue::{Frame, FrameQueue, NO_TIMESTAMP};
use ffgpu::decode::packet_queue::{accept_packet, Packet, PacketQueue, PacketStep, NULL_HANDLE};
use ffgpu::error::Error;
use ffgpu::rational::Rational;

#[test]
fn channel_gives_items_in_order() {
    let mut channel = Channel::unbounded();
    assert_eq!(channel.len(), 0);
    assert_eq!(channel.try_receive(), None);
    channel.send((1, -2, 3));
    channel.send((4, 5, 6));
    assert_eq!(channel.len(), 2);
    assert_eq!(channel.try_receive(), Some((1, -2, 3)));
    channel.send((7, 8, 9));
    assert_eq!(channel.try_receive(), Some((4, 5, 6)));
    assert_eq!(channel.try_receive(), Some((7, 8, 9)));
    assert_eq!(channel.try_receive(), None);
    assert_eq!(channel.len(), 0);
}

#[test]
fn bounded_channel_holds_as_many_as_its_limit() {
    let mut channel = Channel::bounded(3);
    for i in 0..3 {
        channel.send((i, 0, 0));
    }
    assert_eq!(channel.len(), 3);
    assert_eq!(channel.try_receive(), Some((0, 0, 0)));
    channel.send((3, 0, 0));
    assert_eq!(channel.len(), 3);
}

#[test]
fn packets_come_out_in_order_with_their_serial() {
    let mut queue = PacketQueue::new(4);
    assert_eq!(queue.stream(), 4);
    queue.push(11, 40);
    queue.push(12, 20);
    queue.push_null();
    assert_eq!(queue.len(), 3);
    assert_eq!(queue.duration(), 60);
    assert_eq!(
        queue.try_receive(),
        Some(Packet {
            handle: 11,
            duration: 40,
            serial: 0
        })
    );
    assert_eq!(queue.duration(), 20);
    assert_eq!(queue.try_receive().unwrap().handle, 12);
    let null = queue.try_receive().unwrap();
    assert_eq!(null.handle, NULL_HANDLE);
    assert_eq!(null.duration, 0);
    assert_eq!(queue.duration(), 0);
    assert!(queue.is_empty());
    assert_eq!(queue.try_receive(), None);
}

#[test]
fn flush_starts_a_new_generation() {
    let mut queue = PacketQueue::new(0);
    queue.push(1, 10);
    queue.push(2, 10);
    let dropped = queue.flush();
    assert_eq!(dropped.len(), 2);
    assert_eq!(dropped[0].handle, 1);
    assert_eq!(dropped[1].handle, 2);
    assert_eq!(queue.len(), 0);
    assert_eq!(queue.duration(), 0);
    assert_eq!(queue.serial(), 1);
    queue.push(3, 5);
    assert_eq!(queue.try_receive().unwrap().serial, 1);
}

#[test]
fn packet_durations_wrap_around() {
    let mut queue = PacketQueue::new(0);
    queue.push(1, i64::MAX);
    queue.push(2, 1);
    assert_eq!(queue.duration(), i64::MIN);
    queue.try_receive();
    assert_eq!(queue.duration(), 1);
}

#[test]
fn enough_packets_are_more_than_the_minimum_and_over_a_second() {
    let time_base = Rational::new(1, 25);
    let mut queue = PacketQueue::new(0);
    for i in 0..25 {
        queue.push(i + 1, 2);
    }
    // 25 packets of two seconds in all are too few
    assert!(!queue.has_enough_packets(time_base));
    queue.push(26, 2);
    assert!(queue.has_enough_packets(time_base));
    let mut short = PacketQueue::new(0);
    for i in 0..26 {
        short.push(i + 1, if i < 25 { 1 } else { 0 });
    }
    // 26 packets that last exactly one second are too short
    assert!(!short.has_enough_packets(time_base));
}

#[test]
fn lengths_compare_to_a_second_as_doubles_do() {
    let numbers = [
        i32::MIN, -48000, -3, -1, 0, 1, 2, 3, 7, 25, 49, 1001, 30000, 48000, 90000, i32::MAX,
    ];
    let units = [
        i64::MIN, -90000, -1, 0, 1, 3, 7, 24, 25, 26, 49, 48000, 48001, 90000, 2147483647, 2147483648,
        i64::MAX,
    ];
    for num in numbers {
        for den in numbers {
            for length in units {
                let time_base = Rational::new(num, den);
                let seconds = num as f64 / den as f64 * length as f64;
                assert_eq!(
                    time_base.over_a_second(length),
                    seconds > 1.0,
                    "{}/{} * {}",
                    num,
                    den,
                    length
                );
            }
        }
    }
}

#[test]
fn rationals_invert() {
    assert_eq!(Rational::new(30000, 1001).invert(), Rational::new(1001, 30000));
    assert!(Rational::new(25, 1).is_positive());
    assert!(!Rational::new(0, 1).is_positive());
    assert!(!Rational::new(25, 0).is_positive());
    assert!(!Rational::new(-25, -1).is_positive());
}

#[test]
fn outdated_packets_are_dropped_and_decoders_flushed() {
    let mut last = 0;
    let packet = Packet {
        handle: 9,
        duration: 1,
        serial: 1,
    };
    assert_eq!(
        accept_packet(&mut last, packet, 1),
        PacketStep {
            flush: true,
            decode: true
        }
    );
    assert_eq!(last, 1);
    assert_eq!(
        accept_packet(&mut last, packet, 2),
        PacketStep {
            flush: false,
            decode: false
        }
    );
    let mut queue = PacketQueue::new(0);
    queue.push(1, 1);
    let taken = queue.try_receive().unwrap();
    queue.flush();
    assert!(!accept_packet(&mut last, taken, queue.serial()).decode);
}

#[test]
fn frames_go_round() {
    let mut frames = FrameQueue::new(2);
    assert!(frames.has_free());
    assert_eq!(frames.try_next(), None);
    assert_eq!(frames.send(100, 5), Some(0));
    assert_eq!(frames.send(200, 6), Some(1));
    assert_eq!(frames.send(300, 7), None);
    assert!(!frames.has_free());
    assert_eq!(frames.queued_len(), 2);
    let first = frames.try_next().unwrap();
    assert_eq!(
        first,
        Frame {
            slot: 0,
            timestamp: 100,
            serial: 5
        }
    );
    assert!(!frames.has_free());
    frames.release(first);
    assert!(frames.has_free());
    assert_eq!(frames.send(300, 7), Some(0));
    assert_eq!(frames.try_next().unwrap().timestamp, 200);
    assert_eq!(frames.try_next().unwrap().timestamp, 300);
    assert_eq!(frames.try_next(), None);
}

#[test]
fn flush_returns_queued_frames_to_the_pool() {
    let mut frames = FrameQueue::new(3);
    frames.send(1, 0);
    frames.send(2, 0);
    let held = frames.try_next().unwrap();
    frames.flush();
    assert_eq!(frames.queued_len(), 0);
    // the frame that was taken stays out: two slots are left
    assert!(frames.send(3, 0).is_some());
    assert!(frames.send(4, 0).is_some());
    assert_eq!(frames.send(5, 0), None);
    frames.release(held);
    assert_eq!(frames.send(5, 0), Some(held.slot));
}

#[test]
fn a_pool_without_slots_takes_nothing() {
    let mut frames = FrameQueue::new(0);
    assert!(!frames.has_free());
    assert_eq!(frames.send(NO_TIMESTAMP, 0), None);
    frames.flush();
    assert_eq!(frames.try_next(), None);
}

#[test]
fn new_clock_tells_nothing() {
    let clock = Clock::new(3.5f64.to_bits());
    assert_eq!(clock.get(0), ClockReading::Unavailable);
    assert_eq!(clock.serial, NEVER_SET);
    assert_eq!(clock.last_updated, 3.5f64.to_bits());
    assert!(f64::from_bits(UNKNOWN_TIME).is_nan());
    assert_eq!(f64::from_bits(NORMAL_SPEED), 1.0);
}

#[test]
fn clock_runs_and_stands_still() {
    let mut clock = Clock::new(0);
    clock.set(10f64.to_bits(), 8f64.to_bits(), 2f64.to_bits(), 4);
    assert_eq!(
        clock.get(4),
        ClockReading::Running {
            pts_drift: 8f64.to_bits(),
            last_updated: 2f64.to_bits(),
            speed: NORMAL_SPEED
        }
    );
    assert_eq!(clock.get(5), ClockReading::Unavailable);
    clock.set_paused(true);
    assert_eq!(clock.get(4), ClockReading::Held(10f64.to_bits()));
    clock.set(UNKNOWN_TIME, UNKNOWN_TIME, 3f64.to_bits(), 4);
    assert_eq!(clock.get(4), ClockReading::Unavailable);
}

#[test]
fn bit_patterns_are_told_apart_as_doubles_are() {
    for value in [
        0.0f64,
        -0.0,
        1.0,
        -1.0,
        f64::MAX,
        f64::MIN,
        f64::INFINITY,
        f64::NEG_INFINITY,
        f64::NAN,
        -f64::NAN,
        f64::MIN_POSITIVE,
    ] {
        assert_eq!(is_not_a_number(value.to_bits()), value.is_nan());
    }
    assert!(is_not_a_number(0x7ff0_0000_0000_0001));
    assert!(is_not_a_number(u64::MAX));
}

#[test]
fn errors_tell_what_happened() {
    assert_eq!(Error::from(-11), Error::FFmpeg(-11));
    assert_eq!(
        Error::FFmpeg(-11).message("Resource temporarily unavailable"),
        "FFmpeg error: Resource temporarily unavailable"
    );
    assert_eq!(Error::InvalidStream.message(""), "failed to select stream");
    assert_eq!(
        Error::MissingCodec("av1").message(""),
        "failed to find codec av1 for stream"
    );
    assert_eq!(
        Error::UnsupportedPixelFormat.message(""),
        "unsupported pixel format"
    );
}
