//! Presentation clocks.
//!
//! Clock times are seconds in double precision. They are kept here as bit patterns: a clock
//! decides which of them apply, and whoever reads the clock does the arithmetic.
use vstd::prelude::*;

verus! {

/// The bit pattern of a time that is not known.
pub const UNKNOWN_TIME: u64 = 0x7ff8_0000_0000_0000;

/// The bit pattern of normal speed.
pub const NORMAL_SPEED: u64 = 0x3ff0_0000_0000_0000;

/// The serial number of a clock that was never set: that of no packet queue that was flushed
/// fewer than 2^32 - 1 times.
pub const NEVER_SET: u32 = u32::MAX;

/// Without its sign bit, a double of this pattern or above is not a number, save the first.
pub const INFINITY: u64 = 0x7ff0_0000_0000_0000;

/// The pattern is that of a double that is not a number: all exponent bits are set, and some
/// bit of the fraction.
pub open spec fn not_a_number(bits: u64) -> bool {
    bits % 0x8000_0000_0000_0000 > INFINITY
}

/// Whether a bit pattern is that of a double that is not a number.
pub fn is_not_a_number(bits: u64) -> (unknown: bool)
    ensures
        unknown == not_a_number(bits),
{
    bits % 0x8000_0000_0000_0000 > INFINITY
}

/// How to read a clock.
#[derive(Debug, Clone, Copy, PartialEq, Eq, Structural)]
pub enum ClockReading {
    /// The clock tells nothing.
    Unavailable,
    /// The clock stands still at this time.
    Held(u64),
    /// The clock runs. At the moment `t` it shows
    /// `pts_drift + t - (t - last_updated) * (1 - speed)`.
    Running { pts_drift: u64, last_updated: u64, speed: u64 },
}

/// A clock that follows the frames of one stream.
#[derive(Debug, Clone, Copy, PartialEq, Eq, Structural)]
pub struct Clock {
    /// The time that the clock was set to.
    pub pts: u64,
    /// That time less the moment at which it was set.
    pub pts_drift: u64,
    /// The moment at which the clock was set.
    pub last_updated: u64,
    /// How fast the clock runs.
    pub speed: u64,
    /// The generation of the packets that the clock was set from.
    pub serial: u32,
    /// The clock stands still.
    pub paused: bool,
}

impl Clock {
    /// What the clock shows while its packet queue is at the generation `queue_serial`.
    pub open spec fn reading(&self, queue_serial: u32) -> ClockReading {
        if self.serial != queue_serial {
            ClockReading::Unavailable
        } else if !self.paused {
            ClockReading::Running {
                pts_drift: self.pts_drift,
                last_updated: self.last_updated,
                speed: self.speed,
            }
        } else if not_a_number(self.pts) {
            ClockReading::Unavailable
        } else {
            ClockReading::Held(self.pts)
        }
    }

    /// The clock after it was set.
    pub open spec fn after_set(&self, pts: u64, pts_drift: u64, time: u64, serial: u32) -> Clock {
        Clock { pts, pts_drift, last_updated: time, serial, ..*self }
    }

    /// A running clock that was never set, made at the moment `time`.
    pub fn new(time: u64) -> (clock: Clock)
        ensures
            clock == (Clock {
                pts: UNKNOWN_TIME,
                pts_drift: UNKNOWN_TIME,
                last_updated: time,
                speed: NORMAL_SPEED,
                serial: NEVER_SET,
                paused: false,
            }),
    {
        let mut clock = Clock {
            pts: 0,
            pts_drift: 0,
            last_updated: 0,
            speed: NORMAL_SPEED,
            serial: 0,
            paused: false,
        };
        clock.set(UNKNOWN_TIME, UNKNOWN_TIME, time, NEVER_SET);
        clock
    }

    /// How to read the clock while its packet queue is at the generation `queue_serial`.
    pub fn get(&self, queue_serial: u32) -> (reading: ClockReading)
        ensures
            reading == self.reading(queue_serial),
    {
        if self.serial != queue_serial {
            ClockReading::Unavailable
        } else if self.paused {
            if is_not_a_number(self.pts) {
                ClockReading::Unavailable
            } else {
                ClockReading::Held(self.pts)
            }
        } else {
            ClockReading::Running {
                pts_drift: self.pts_drift,
                last_updated: self.last_updated,
                speed: self.speed,
            }
        }
    }

    /// Sets the clock at the moment `time` to `pts`, from a frame of the generation `serial`.
    /// `pts_drift` is `pts` less `time`.
    pub fn set(&mut self, pts: u64, pts_drift: u64, time: u64, serial: u32)
        ensures
            *final(self) == old(self).after_set(pts, pts_drift, time, serial),
    {
        self.pts = pts;
        self.last_updated = time;
        self.pts_drift = pts_drift;
        self.serial = serial;
    }

    /// Stops the clock, or lets it run on.
    pub fn set_paused(&mut self, paused: bool)
        ensures
            *final(self) == (Clock { paused, ..*old(self) }),
    {
        self.paused = paused;
    }

    /// Sets the clock to what it showed a moment ago, under the serial number of `slave`, where
    /// the two readings of it lie too far apart (`far_apart`). The clock is set to `pts` at the
    /// moment `time`, with `pts_drift` as their difference. Returns whether it was set.
    pub fn sync_to_slave(
        &mut self,
        slave: &Clock,
        queue_serial: u32,
        far_apart: bool,
        pts: u64,
        pts_drift: u64,
        time: u64,
    ) -> (synced: bool)
        ensures
            synced == (far_apart && !(old(self).reading(queue_serial) is Unavailable)),
            synced ==> *final(self) == old(self).after_set(pts, pts_drift, time, slave.serial),
            !synced ==> *final(self) == *old(self),
    {
        let available = match self.get(queue_serial) {
            ClockReading::Unavailable => false,
            _ => true,
        };
        if available && far_apart {
            self.set(pts, pts_drift, time, slave.serial);
            true
        } else {
            false
        }
    }
}

/// A new clock tells nothing, whether it runs or not, until it is set: no queue is at its
/// generation, except one that was flushed 2^32 - 1 times.
pub proof fn law_new_clock_tells_nothing(clock: Clock, queue_serial: u32)
    requires
        clock.pts == UNKNOWN_TIME,
        clock.serial == NEVER_SET,
        queue_serial != NEVER_SET || clock.paused,
    ensures
        clock.reading(queue_serial) is Unavailable,
{
    assert(not_a_number(UNKNOWN_TIME));
}

/// A clock that was set from the present generation tells the time, and a flush of the queue
/// silences it.
pub proof fn law_flush_silences_the_clock(
    clock: Clock,
    pts: u64,
    pts_drift: u64,
    time: u64,
    serial: u32,
)
    requires
        !not_a_number(pts),
    ensures
        ({
            let set = clock.after_set(pts, pts_drift, time, serial);
            &&& !(set.reading(serial) is Unavailable)
            &&& set.paused ==> set.reading(serial) == ClockReading::Held(pts)
            &&& set.reading(vstd::wrapping::u32_specs::wrapping_add(serial, 1)) is Unavailable
        }),
{
}

/// A clock tells something exactly where it was set from the generation that the queue is at and,
/// where it stands still, its time is a number. It then shows the time that it was set to, or what
/// its drift, its last setting and its speed make of the moment.
pub proof fn law_clocks_show_what_they_were_set_to(clock: Clock, queue_serial: u32)
    ensures
        clock.reading(queue_serial) is Unavailable <==> clock.serial != queue_serial
            || clock.paused && not_a_number(clock.pts),
        match clock.reading(queue_serial) {
            ClockReading::Unavailable => true,
            ClockReading::Held(time) => clock.paused && time == clock.pts,
            ClockReading::Running { pts_drift, last_updated, speed } => {
                &&& !clock.paused
                &&& pts_drift == clock.pts_drift
                &&& last_updated == clock.last_updated
                &&& speed == clock.speed
            },
        },
{
}

/// Setting a clock sets its time, its drift, its moment and its generation, and leaves its speed and
/// whether it stands still.
pub proof fn law_setting_leaves_speed_and_pause(
    clock: Clock,
    pts: u64,
    pts_drift: u64,
    time: u64,
    serial: u32,
)
    ensures
        ({
            let after = clock.after_set(pts, pts_drift, time, serial);
            &&& after.pts == pts
            &&& after.pts_drift == pts_drift
            &&& after.last_updated == time
            &&& after.serial == serial
            &&& after.speed == clock.speed
            &&& after.paused == clock.paused
        }),
{
}

/// A pattern is no number exactly where its eleven exponent bits are all set and its fraction is
/// not zero, whatever its sign.
pub proof fn law_no_number_has_a_full_exponent_and_a_fraction(bits: u64)
    ensures
        not_a_number(bits) <==> bits & 0x7ff0_0000_0000_0000 == 0x7ff0_0000_0000_0000 && bits
            & 0x000f_ffff_ffff_ffff != 0,
        not_a_number(UNKNOWN_TIME),
        NORMAL_SPEED >> 52 == 1023,
        NORMAL_SPEED & 0x000f_ffff_ffff_ffff == 0,
{
    assert(bits % 0x8000_0000_0000_0000 > 0x7ff0_0000_0000_0000 <==> bits & 0x7ff0_0000_0000_0000
        == 0x7ff0_0000_0000_0000 && bits & 0x000f_ffff_ffff_ffff != 0) by (bit_vector);
    assert(0x3ff0_0000_0000_0000u64 >> 52 == 1023) by (bit_vector);
    assert(0x3ff0_0000_0000_0000u64 & 0x000f_ffff_ffff_ffff == 0) by (bit_vector);
}

} // verus!
