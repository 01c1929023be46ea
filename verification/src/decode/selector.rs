//! Which decoded frames are shown.
//!
//! After an accurate seek a decoder starts at an earlier key frame. What it gives before the
//! timestamp that was asked for is not shown, but the last such frame is held: where the stream
//! ends before that timestamp, it is shown in place of the frame that never comes.
use vstd::prelude::*;

verus! {

/// The time of a frame: in units of the stream's time base, and rescaled to microseconds.
#[derive(Debug, Clone, Copy, PartialEq, Eq, Structural)]
pub struct FrameTime {
    pub pts: i64,
    pub micros: i64,
}

/// What a decoder answered when it was asked for a frame.
#[derive(Debug, Clone, Copy, PartialEq, Eq, Structural)]
pub enum Received {
    /// A frame, with its time where it has one.
    Frame(Option<FrameTime>),
    /// The stream is at its end.
    Eof,
    /// The next packet is needed first.
    Again,
    /// Another error.
    Failed,
}

/// What to do with the answer of a decoder.
#[derive(Debug, Clone, Copy, PartialEq, Eq, Structural)]
pub enum FrameStep {
    /// Keep this frame as the held one, in place of an earlier one, and ask again.
    Hold,
    /// Drop this frame and ask again.
    Drop,
    /// Show this frame.
    Show(Option<i64>),
    /// Show the held frame, of this time.
    ShowHeld(i64),
    /// Flush the decoder, then fetch the next packet.
    FlushAndFetch,
    /// Fetch the next packet.
    Fetch,
    /// Ask again.
    Ignore,
}

/// Chooses among the frames of one decoder.
#[derive(Debug, Clone, Copy, PartialEq, Eq, Structural)]
pub struct FrameSelector {
    /// The timestamp to skip to, in microseconds.
    pub skip_to: Option<i64>,
    /// The time of the frame that is held.
    pub held: Option<i64>,
}

impl FrameSelector {
    /// The frame comes before the timestamp that is skipped to.
    pub open spec fn skips(&self, time: FrameTime) -> bool {
        self.skip_to matches Some(target) && time.micros < target
    }

    /// What to do with an answer, and the selector after it. A frame that is not skipped is
    /// dropped where it comes too late.
    pub open spec fn selected(&self, received: Received, late: bool) -> (FrameStep, FrameSelector) {
        match received {
            Received::Frame(Some(time)) => if self.skips(time) {
                (FrameStep::Hold, FrameSelector { held: Some(time.pts), ..*self })
            } else {
                let step = if late {
                    FrameStep::Drop
                } else {
                    FrameStep::Show(Some(time.pts))
                };
                (step, FrameSelector { held: None, ..*self })
            },
            Received::Frame(None) => (FrameStep::Show(None), *self),
            Received::Eof => match self.held {
                Some(pts) => (FrameStep::ShowHeld(pts), FrameSelector { held: None, ..*self }),
                None => (FrameStep::FlushAndFetch, *self),
            },
            Received::Again => (FrameStep::Fetch, *self),
            Received::Failed => (FrameStep::Ignore, *self),
        }
    }

    /// A selector that skips nothing.
    pub fn new() -> (selector: FrameSelector)
        ensures
            selector == (FrameSelector { skip_to: None, held: None }),
    {
        FrameSelector { skip_to: None, held: None }
    }

    /// What to do with an answer of the decoder.
    pub fn select(&mut self, received: Received, late: bool) -> (step: FrameStep)
        ensures
            (step, *final(self)) == old(self).selected(received, late),
    {
        match received {
            Received::Frame(Some(time)) => {
                if let Some(target) = self.skip_to {
                    if time.micros < target {
                        self.held = Some(time.pts);
                        return FrameStep::Hold;
                    }
                }
                self.held = None;
                if late {
                    FrameStep::Drop
                } else {
                    FrameStep::Show(Some(time.pts))
                }
            },
            Received::Frame(None) => FrameStep::Show(None),
            Received::Eof => match self.held {
                Some(pts) => {
                    self.held = None;
                    FrameStep::ShowHeld(pts)
                },
                None => FrameStep::FlushAndFetch,
            },
            Received::Again => FrameStep::Fetch,
            Received::Failed => FrameStep::Ignore,
        }
    }
}

/// The selector after the decoder gave these frames, one after the other.
pub open spec fn after_frames(selector: FrameSelector, times: Seq<FrameTime>) -> FrameSelector
    decreases times.len(),
{
    if times.len() == 0 {
        selector
    } else {
        after_frames(selector, times.drop_last()).selected(
            Received::Frame(Some(times.last())),
            false,
        ).1
    }
}

/// While the decoder gives frames before the timestamp that is skipped to, none is shown, and
/// the latest of them is held.
pub proof fn law_skipped_frames_are_not_shown(
    selector: FrameSelector,
    times: Seq<FrameTime>,
    late: bool,
)
    requires
        forall|i: int| 0 <= i < times.len() ==> selector.skips(#[trigger] times[i]),
    ensures
        after_frames(selector, times).skip_to == selector.skip_to,
        after_frames(selector, times).held == (if times.len() == 0 {
            selector.held
        } else {
            Some(times.last().pts)
        }),
        forall|i: int|
            0 <= i < times.len() ==> after_frames(selector, times.take(i)).selected(
                Received::Frame(Some(#[trigger] times[i])),
                late,
            ).0 is Hold,
    decreases times.len(),
{
    if times.len() > 0 {
        let earlier = times.drop_last();
        assert forall|i: int| 0 <= i < earlier.len() implies selector.skips(
            #[trigger] earlier[i],
        ) by {
            assert(earlier[i] == times[i]);
        }
        law_skipped_frames_are_not_shown(selector, earlier, late);
        assert(selector.skips(times[times.len() - 1]));
        assert forall|i: int| 0 <= i < times.len() implies after_frames(
            selector,
            times.take(i),
        ).selected(Received::Frame(Some(#[trigger] times[i])), late).0 is Hold by {
            if i < earlier.len() {
                assert(times.take(i) == earlier.take(i));
                assert(earlier[i] == times[i]);
            } else {
                assert(times.take(i) == earlier);
            }
        }
    }
}

/// Where the stream ends before the timestamp that was asked for, its last frame is shown.
pub proof fn law_last_frame_stands_in_for_the_end(selector: FrameSelector, times: Seq<FrameTime>)
    requires
        times.len() > 0,
        forall|i: int| 0 <= i < times.len() ==> selector.skips(#[trigger] times[i]),
    ensures
        after_frames(selector, times).selected(Received::Eof, false).0 == FrameStep::ShowHeld(
            times.last().pts,
        ),
{
    law_skipped_frames_are_not_shown(selector, times, false);
}

/// A frame with a time that is shown, other than at the end of the stream, is not before the
/// timestamp that is skipped to; without such a timestamp every frame in time is shown.
pub proof fn law_shown_frames_reach_the_target(
    selector: FrameSelector,
    time: FrameTime,
    late: bool,
    target: i64,
)
    ensures
        selector.skip_to == Some(target) && selector.selected(
            Received::Frame(Some(time)),
            late,
        ).0 is Show ==> time.micros >= target,
        selector.skip_to is None && !late ==> selector.selected(
            Received::Frame(Some(time)),
            late,
        ).0 == FrameStep::Show(Some(time.pts)),
{
}

/// A frame with a time is held while its time is before the timestamp that is skipped to, whether
/// it is late or not. Otherwise nothing is held any more, and the frame is shown unless it is late.
/// Either way the timestamp stays.
pub proof fn law_timed_frames_are_held_dropped_or_shown(
    selector: FrameSelector,
    time: FrameTime,
    late: bool,
)
    ensures
        ({
            let (step, after) = selector.selected(Received::Frame(Some(time)), late);
            let before_target = match selector.skip_to {
                Some(target) => time.micros < target,
                None => false,
            };
            &&& after.skip_to == selector.skip_to
            &&& before_target ==> step == FrameStep::Hold && after.held == Some(time.pts)
            &&& !before_target ==> after.held is None
            &&& !before_target && late ==> step == FrameStep::Drop
            &&& !before_target && !late ==> step == FrameStep::Show(Some(time.pts))
        }),
{
}

/// A frame without a time is shown, whatever is skipped to, held or late, and changes nothing.
pub proof fn law_untimed_frames_are_shown(selector: FrameSelector, late: bool)
    ensures
        selector.selected(Received::Frame(None), late) == (FrameStep::Show(None), selector),
{
}

/// At the end of the stream the held frame is shown and held no more; without one the decoder is
/// flushed, whatever timestamp is skipped to, so that it takes packets again. The timestamp stays
/// either way.
pub proof fn law_end_shows_the_held_frame_or_flushes(selector: FrameSelector, late: bool)
    ensures
        ({
            let (step, after) = selector.selected(Received::Eof, late);
            &&& after.skip_to == selector.skip_to
            &&& after.held is None
            &&& match selector.held {
                Some(pts) => step == FrameStep::ShowHeld(pts),
                None => step == FrameStep::FlushAndFetch,
            }
        }),
{
}

/// A decoder that wants a packet gets one, and an error is passed over; neither changes what is
/// skipped to or held, and neither shows anything.
pub proof fn law_other_answers_change_nothing(selector: FrameSelector, late: bool)
    ensures
        selector.selected(Received::Again, late) == (FrameStep::Fetch, selector),
        selector.selected(Received::Failed, late) == (FrameStep::Ignore, selector),
{
}

} // verus!
