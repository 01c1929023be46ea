//! Queues of decoded frames that wait to be shown or played.
use crate::channel::{Channel, LARGEST_LIMIT};
use vstd::prelude::*;

verus! {

/// The timestamp of a frame that has none.
pub const NO_TIMESTAMP: i64 = i64::MIN;

/// The serial number of a frame that was never filled.
pub const NO_SERIAL: u32 = u32::MAX;

/// A frame of the pool: the slot that its data lies in, the best known timestamp of that data
/// in units of the stream's time base, and the generation of the packets it was decoded from.
#[derive(Debug, Clone, Copy, PartialEq, Eq, Structural)]
pub struct Frame {
    pub slot: u64,
    pub timestamp: i64,
    pub serial: u32,
}

/// A frame as a channel carries it.
pub closed spec fn frame_of(item: (u64, i64, u32)) -> Frame {
    Frame { slot: item.0, timestamp: item.1, serial: item.2 }
}

/// The frames that a channel carries.
pub closed spec fn frames_of(items: Seq<(u64, i64, u32)>) -> Seq<Frame> {
    Seq::new(items.len(), |i: int| frame_of(items[i]))
}

/// A frame of the sequence lies in this slot.
pub open spec fn has_slot(frames: Seq<Frame>, slot: u64) -> bool {
    exists|i: int| 0 <= i < frames.len() && (#[trigger] frames[i]).slot == slot
}

/// The frame once its data is gone.
pub open spec fn emptied(frame: Frame) -> Frame {
    Frame { timestamp: NO_TIMESTAMP, ..frame }
}

/// The frames once their data is gone.
pub open spec fn all_emptied(frames: Seq<Frame>) -> Seq<Frame> {
    Seq::new(frames.len(), |i: int| emptied(frames[i]))
}

/// The pool that a queue starts with: one frame for each slot, none of them filled.
pub open spec fn fresh_pool(capacity: nat) -> Seq<Frame> {
    Seq::new(
        capacity,
        |i: int| Frame { slot: i as u64, timestamp: NO_TIMESTAMP, serial: NO_SERIAL },
    )
}

/// What a frame queue holds.
pub struct FrameQueueView {
    /// How many slots there are.
    pub capacity: nat,
    /// The frames that can be filled, in the order in which they will be.
    pub free: Seq<Frame>,
    /// The filled frames, the oldest first.
    pub queued: Seq<Frame>,
}

impl FrameQueueView {
    /// The frame in this slot was taken out and not yet given back.
    pub open spec fn handed_out(&self, slot: u64) -> bool {
        &&& slot < self.capacity
        &&& !has_slot(self.free, slot)
        &&& !has_slot(self.queued, slot)
    }

    /// No slot is in two places, and no frame is outside the pool.
    pub open spec fn consistent(&self) -> bool {
        let all = self.free + self.queued;
        &&& forall|i: int| 0 <= i < all.len() ==> (#[trigger] all[i]).slot < self.capacity
        &&& forall|i: int, j: int|
            0 <= i < j < all.len() ==> (#[trigger] all[i]).slot != (#[trigger] all[j]).slot
    }

    /// The queue once the next free frame was filled and appended.
    pub open spec fn sent(&self, timestamp: i64, serial: u32) -> FrameQueueView {
        FrameQueueView {
            free: self.free.drop_first(),
            queued: self.queued.push(Frame { slot: self.free.first().slot, timestamp, serial }),
            ..*self
        }
    }

    /// The queue without its oldest filled frame.
    pub open spec fn taken(&self) -> FrameQueueView {
        FrameQueueView { queued: self.queued.drop_first(), ..*self }
    }

    /// The queue once this frame was given back.
    pub open spec fn released(&self, frame: Frame) -> FrameQueueView {
        FrameQueueView { free: self.free.push(emptied(frame)), ..*self }
    }

    /// The queue once every filled frame was given back.
    pub open spec fn flushed(&self) -> FrameQueueView {
        FrameQueueView {
            free: self.free + all_emptied(self.queued),
            queued: Seq::empty(),
            ..*self
        }
    }
}

/// Different slots below `capacity` are at most `capacity`, and fewer where one is missing.
proof fn lemma_slots_fit(frames: Seq<Frame>, capacity: nat, missing: Option<u64>)
    requires
        forall|i: int| 0 <= i < frames.len() ==> (#[trigger] frames[i]).slot < capacity,
        forall|i: int, j: int|
            0 <= i < j < frames.len() ==> (#[trigger] frames[i]).slot != (#[trigger] frames[j]).slot,
        missing matches Some(slot) ==> slot < capacity && !has_slot(frames, slot),
    ensures
        frames.len() <= capacity,
        missing is Some ==> frames.len() < capacity,
{
    let slots = Seq::new(frames.len(), |i: int| frames[i].slot as int);
    let all = match missing {
        Some(slot) => slots.push(slot as int),
        None => slots,
    };
    assert(all.no_duplicates()) by {
        assert forall|i: int, j: int| 0 <= i < all.len() && 0 <= j < all.len() && i != j implies all[i]
            != all[j] by {
            if i < frames.len() && j < frames.len() {
                if i < j {
                    assert(frames[i].slot != frames[j].slot);
                } else {
                    assert(frames[j].slot != frames[i].slot);
                }
            } else if i < frames.len() {
                assert(frames[i].slot != missing->Some_0);
            } else {
                assert(frames[j].slot != missing->Some_0);
            }
        }
    }
    all.unique_seq_to_set();
    let range = vstd::set_lib::set_int_range(0, capacity as int);
    vstd::set_lib::lemma_int_range(0, capacity as int);
    assert(all.to_set().subset_of(range)) by {
        assert forall|slot: int| all.to_set().contains(slot) implies range.contains(slot) by {
            let i = choose|i: int| 0 <= i < all.len() && all[i] == slot;
            if i < frames.len() {
                assert(frames[i].slot < capacity);
            }
        }
    }
    vstd::set_lib::lemma_len_subset(all.to_set(), range);
}

proof fn lemma_sent_is_consistent(frames: FrameQueueView, timestamp: i64, serial: u32)
    requires
        frames.consistent(),
        frames.free.len() > 0,
    ensures
        frames.sent(timestamp, serial).consistent(),
{
    let all = frames.free + frames.queued;
    let after = frames.sent(timestamp, serial);
    let now = after.free + after.queued;
    assert forall|i: int| 0 <= i < now.len() implies (#[trigger] now[i]).slot == all[if i
        < now.len() - 1 {
        i + 1
    } else {
        0
    }].slot by {}
}

proof fn lemma_taken_is_consistent(frames: FrameQueueView)
    requires
        frames.consistent(),
        frames.queued.len() > 0,
    ensures
        frames.taken().consistent(),
        frames.taken().handed_out(frames.queued.first().slot),
{
    let slot = frames.queued.first().slot;
    let after = frames.taken();
    let all = frames.free + frames.queued;
    let now = after.free + after.queued;
    let at = frames.free.len() as int;
    assert(all[at] == frames.queued.first());
    assert forall|i: int| 0 <= i < now.len() implies (#[trigger] now[i]) == all[if i < at {
        i
    } else {
        i + 1
    }] by {}
    assert(!has_slot(after.free, slot)) by {
        assert forall|i: int| 0 <= i < after.free.len() implies (#[trigger] after.free[i]).slot
            != slot by {
            assert(all[i].slot != all[at].slot);
        }
    }
    assert(!has_slot(after.queued, slot)) by {
        assert forall|i: int| 0 <= i < after.queued.len() implies (#[trigger] after.queued[i]).slot
            != slot by {
            assert(all[at].slot != all[at + 1 + i].slot);
        }
    }
}

proof fn lemma_released_is_consistent(frames: FrameQueueView, frame: Frame)
    requires
        frames.consistent(),
        frames.handed_out(frame.slot),
    ensures
        frames.released(frame).consistent(),
        frames.free.len() + frames.queued.len() < frames.capacity,
{
    let all = frames.free + frames.queued;
    assert forall|i: int| 0 <= i < all.len() implies (#[trigger] all[i]).slot != frame.slot by {
        if i < frames.free.len() {
            assert(frames.free[i].slot != frame.slot);
        } else {
            assert(frames.queued[i - frames.free.len()].slot != frame.slot);
        }
    }
    lemma_slots_fit(all, frames.capacity, Some(frame.slot));
    let after = frames.released(frame);
    let now = after.free + after.queued;
    let at = frames.free.len() as int;
    assert forall|i: int| 0 <= i < now.len() implies (#[trigger] now[i]).slot == (if i < at {
        all[i].slot
    } else if i == at {
        frame.slot
    } else {
        all[i - 1].slot
    }) by {}
}

proof fn lemma_flushed_is_consistent(frames: FrameQueueView)
    requires
        frames.consistent(),
    ensures
        frames.flushed().consistent(),
{
    let all = frames.free + frames.queued;
    let now = frames.flushed().free + frames.flushed().queued;
    assert forall|i: int| 0 <= i < now.len() implies (#[trigger] now[i]).slot == all[i].slot by {}
}

/// The frames of one stream, in the order in which they were decoded, and the pool of slots
/// that their data lies in.
pub struct FrameQueue {
    free: Channel,
    queue: Channel,
    capacity: usize,
}

impl View for FrameQueue {
    type V = FrameQueueView;

    closed spec fn view(&self) -> FrameQueueView {
        FrameQueueView {
            capacity: self.capacity as nat,
            free: frames_of(self.free.items()),
            queued: frames_of(self.queue.items()),
        }
    }
}

impl FrameQueue {
    /// The queue can be used, and no slot is in two places.
    pub closed spec fn wf(&self) -> bool {
        &&& self.free.wf()
        &&& self.queue.wf()
        &&& self.free.limit() == Some(self.capacity as nat)
        &&& self.queue.limit() == Some(self.capacity as nat)
        &&& self@.consistent()
    }

    /// In a well-formed queue no slot is in two places.
    pub proof fn lemma_wf_is_consistent(&self)
        requires
            self.wf(),
        ensures
            self@.consistent(),
    {
    }

    /// An empty queue over a pool of `capacity` slots.
    pub fn new(capacity: usize) -> (frames: FrameQueue)
        requires
            capacity <= LARGEST_LIMIT,
        ensures
            frames.wf(),
            frames@ == (FrameQueueView {
                capacity: capacity as nat,
                free: fresh_pool(capacity as nat),
                queued: Seq::empty(),
            }),
    {
        let mut free = Channel::bounded(capacity);
        let queue = Channel::bounded(capacity);
        let mut slot: u64 = 0;
        while slot < capacity as u64
            invariant
                slot <= capacity,
                capacity <= LARGEST_LIMIT,
                free.wf(),
                free.limit() == Some(capacity as nat),
                frames_of(free.items()) == fresh_pool(slot as nat),
            decreases capacity - slot,
        {
            let ghost before = free.items();
            assert(frames_of(before).len() == before.len());
            free.send((slot, NO_TIMESTAMP, NO_SERIAL));
            slot = slot + 1;
            assert(frames_of(free.items()) == fresh_pool(slot as nat)) by {
                assert forall|i: int| 0 <= i < slot implies frames_of(free.items())[i] == fresh_pool(
                    slot as nat,
                )[i] by {
                    if i < slot - 1 {
                        assert(frames_of(before)[i] == fresh_pool((slot - 1) as nat)[i]);
                    }
                }
            }
        }
        let frames = FrameQueue { free, queue, capacity };
        proof {
            assert(frames@.queued == Seq::<Frame>::empty());
            assert(frames@.free + frames@.queued == frames@.free);
        }
        frames
    }

    /// Appends a frame with this timestamp and serial number. The frame lies in the slot that
    /// was free the longest; the slot is returned, for the data to be moved there. Where no
    /// slot is free nothing happens: the caller waits for one to be released.
    pub fn send(&mut self, timestamp: i64, serial: u32) -> (slot: Option<u64>)
        requires
            old(self).wf(),
        ensures
            final(self).wf(),
            match slot {
                Some(slot) => {
                    &&& old(self)@.free.len() > 0
                    &&& slot == old(self)@.free.first().slot
                    &&& final(self)@ == old(self)@.sent(timestamp, serial)
                },
                None => {
                    &&& old(self)@.free.len() == 0
                    &&& final(self)@ == old(self)@
                },
            },
    {
        let ghost before = self@;
        proof {
            lemma_slots_fit(before.free + before.queued, before.capacity, None);
        }
        match self.free.try_receive() {
            Some(item) => {
                assert(frames_of(self.free.items()) == before.free.drop_first());
                self.queue.send((item.0, timestamp, serial));
                proof {
                    assert(self@.free == before.free.drop_first());
                    assert(self@.queued == before.sent(timestamp, serial).queued);
                    lemma_sent_is_consistent(before, timestamp, serial);
                }
                Some(item.0)
            },
            None => None,
        }
    }

    /// How many filled frames wait.
    pub fn queued_len(&self) -> (count: usize)
        requires
            self.wf(),
        ensures
            count == self@.queued.len(),
    {
        self.queue.len()
    }

    /// Whether a slot is free.
    pub fn has_free(&self) -> (free: bool)
        requires
            self.wf(),
        ensures
            free == (self@.free.len() > 0),
    {
        self.free.len() > 0
    }

    /// Takes the oldest filled frame.
    pub fn try_next(&mut self) -> (frame: Option<Frame>)
        requires
            old(self).wf(),
        ensures
            final(self).wf(),
            match frame {
                Some(frame) => {
                    &&& old(self)@.queued.len() > 0
                    &&& frame == old(self)@.queued.first()
                    &&& final(self)@ == old(self)@.taken()
                    &&& final(self)@.handed_out(frame.slot)
                },
                None => {
                    &&& old(self)@.queued.len() == 0
                    &&& final(self)@ == old(self)@
                },
            },
    {
        let ghost before = self@;
        match self.queue.try_receive() {
            Some(item) => {
                proof {
                    assert(self@.queued == before.queued.drop_first());
                    lemma_taken_is_consistent(before);
                }
                Some(Frame { slot: item.0, timestamp: item.1, serial: item.2 })
            },
            None => None,
        }
    }

    /// Gives a frame that was taken out back to the pool, without its data.
    pub fn release(&mut self, frame: Frame)
        requires
            old(self).wf(),
            old(self)@.handed_out(frame.slot),
        ensures
            final(self).wf(),
            final(self)@ == old(self)@.released(frame),
    {
        let ghost before = self@;
        proof {
            lemma_released_is_consistent(before, frame);
        }
        self.free.send((frame.slot, NO_TIMESTAMP, frame.serial));
        proof {
            assert(self@.free == before.released(frame).free);
        }
    }

    /// Gives every filled frame back to the pool, the oldest first.
    pub fn flush(&mut self)
        requires
            old(self).wf(),
        ensures
            final(self).wf(),
            final(self)@ == old(self)@.flushed(),
    {
        let ghost start = self@;
        let ghost mut done: int = 0;
        loop
            invariant
                self.wf(),
                start == old(self)@,
                0 <= done <= start.queued.len(),
                self@.capacity == start.capacity,
                self@.queued == start.queued.skip(done),
                self@.free == start.free + all_emptied(start.queued.take(done)),
            ensures
                self.wf(),
                self@.queued.len() == 0,
                done == start.queued.len(),
                self@.capacity == start.capacity,
                self@.free == start.free + all_emptied(start.queued.take(done)),
            decreases self@.queued.len(),
        {
            let ghost before = self@;
            match self.try_next() {
                Some(frame) => {
                    self.release(frame);
                    proof {
                        assert(self@.queued == start.queued.skip(done + 1));
                        assert(all_emptied(start.queued.take(done + 1)) == all_emptied(
                            start.queued.take(done),
                        ).push(emptied(frame)));
                        assert(self@.free == start.free + all_emptied(start.queued.take(done + 1)));
                        done = done + 1;
                    }
                },
                None => {
                    break;
                },
            }
        }
        proof {
            assert(start.queued.take(done) == start.queued);
            assert(self@.queued == Seq::<Frame>::empty());
        }
    }
}

/// Filling, taking, giving back and flushing keep every slot in one place at most.
pub proof fn law_slots_stay_apart(
    frames: FrameQueueView,
    timestamp: i64,
    serial: u32,
    returned: Frame,
)
    requires
        frames.consistent(),
    ensures
        frames.free.len() > 0 ==> frames.sent(timestamp, serial).consistent(),
        frames.queued.len() > 0 ==> frames.taken().consistent(),
        frames.handed_out(returned.slot) ==> frames.released(returned).consistent(),
        frames.flushed().consistent(),
{
    if frames.free.len() > 0 {
        lemma_sent_is_consistent(frames, timestamp, serial);
    }
    if frames.queued.len() > 0 {
        lemma_taken_is_consistent(frames);
    }
    if frames.handed_out(returned.slot) {
        lemma_released_is_consistent(frames, returned);
    }
    lemma_flushed_is_consistent(frames);
}

/// Every slot of the pool is either free, or queued, or handed out, and never two of these.
pub proof fn law_slot_is_in_one_place(frames: FrameQueueView, slot: u64)
    requires
        frames.consistent(),
        slot < frames.capacity,
    ensures
        has_slot(frames.free, slot) || has_slot(frames.queued, slot) || frames.handed_out(slot),
        !(has_slot(frames.free, slot) && has_slot(frames.queued, slot)),
        !(has_slot(frames.free, slot) && frames.handed_out(slot)),
        !(has_slot(frames.queued, slot) && frames.handed_out(slot)),
{
    let all = frames.free + frames.queued;
    if has_slot(frames.free, slot) && has_slot(frames.queued, slot) {
        let i = choose|i: int| 0 <= i < frames.free.len() && (#[trigger] frames.free[i]).slot == slot;
        let j = choose|j: int|
            0 <= j < frames.queued.len() && (#[trigger] frames.queued[j]).slot == slot;
        assert(all[i].slot != all[frames.free.len() + j].slot);
    }
}

/// Frames come out in the order in which they went in, with what they were sent with. Sent
/// into an empty queue, a frame comes out next; into any other queue, it changes nothing about
/// what comes out next.
pub proof fn law_frames_keep_their_order(frames: FrameQueueView, timestamp: i64, serial: u32)
    requires
        frames.free.len() > 0,
    ensures
        frames.queued.len() == 0 ==> frames.sent(timestamp, serial).queued.first() == (Frame {
            slot: frames.free.first().slot,
            timestamp,
            serial,
        }),
        frames.queued.len() > 0 ==> {
            &&& frames.sent(timestamp, serial).queued.first() == frames.queued.first()
            &&& frames.sent(timestamp, serial).taken() == frames.taken().sent(timestamp, serial)
        },
{
    if frames.queued.len() > 0 {
        assert(frames.sent(timestamp, serial).taken().queued == frames.taken().sent(
            timestamp,
            serial,
        ).queued);
    }
}

/// A frame that is sent, taken and given back leaves as many free slots as there were, and the
/// same slot is free again.
pub proof fn law_slot_returns_to_the_pool(frames: FrameQueueView, timestamp: i64, serial: u32)
    requires
        frames.consistent(),
        frames.free.len() > 0,
        frames.queued.len() == 0,
    ensures
        ({
            let sent = frames.sent(timestamp, serial);
            let frame = sent.queued.first();
            let back = sent.taken().released(frame);
            &&& sent.taken().handed_out(frame.slot)
            &&& frame.slot == frames.free.first().slot
            &&& back.free == frames.free.drop_first().push(emptied(frame))
            &&& back.queued == frames.queued
        }),
{
    let sent = frames.sent(timestamp, serial);
    lemma_sent_is_consistent(frames, timestamp, serial);
    lemma_taken_is_consistent(sent);
    assert(sent.taken().queued == frames.queued);
}

/// After a flush no frame waits, and what is handed out is what was handed out before.
pub proof fn law_flush_keeps_what_is_handed_out(frames: FrameQueueView, slot: u64)
    requires
        frames.consistent(),
    ensures
        frames.flushed().queued.len() == 0,
        frames.flushed().handed_out(slot) == frames.handed_out(slot),
{
    let free = frames.flushed().free;
    let n = frames.free.len() as int;
    if has_slot(frames.free, slot) {
        let i = choose|i: int| 0 <= i < n && (#[trigger] frames.free[i]).slot == slot;
        assert(free[i].slot == slot);
    }
    if has_slot(frames.queued, slot) {
        let i = choose|i: int|
            0 <= i < frames.queued.len() && (#[trigger] frames.queued[i]).slot == slot;
        assert(free[n + i].slot == slot);
    }
    if has_slot(free, slot) {
        let i = choose|i: int| 0 <= i < free.len() && (#[trigger] free[i]).slot == slot;
        if i < n {
            assert(frames.free[i].slot == slot);
        } else {
            assert(frames.queued[i - n].slot == slot);
        }
    }
}

/// A pool begins with as many free frames as slots, each slot once, in order, and none of them
/// filled.
pub proof fn law_fresh_pools_have_every_slot_once(capacity: nat, i: int, j: int)
    requires
        capacity <= u64::MAX,
        0 <= i < capacity,
        0 <= j < capacity,
    ensures
        fresh_pool(capacity).len() == capacity,
        fresh_pool(capacity)[i].slot == i,
        fresh_pool(capacity)[i].slot == fresh_pool(capacity)[j].slot ==> i == j,
        fresh_pool(capacity)[i].timestamp == i64::MIN,
        fresh_pool(capacity)[i].serial == u32::MAX,
{
}

/// A frame that is sent goes to the slot that was free longest, comes last, and keeps the timestamp
/// and the serial number that it was sent with. Nothing before it changes, and no other slot.
pub proof fn law_sent_frames_keep_what_they_were_sent_with(
    frames: FrameQueueView,
    timestamp: i64,
    serial: u32,
)
    requires
        frames.free.len() > 0,
    ensures
        ({
            let after = frames.sent(timestamp, serial);
            &&& after.queued.len() == frames.queued.len() + 1
            &&& after.queued.last().timestamp == timestamp
            &&& after.queued.last().serial == serial
            &&& after.queued.last().slot == frames.free[0].slot
            &&& after.queued.take(frames.queued.len() as int) == frames.queued
            &&& after.free == frames.free.skip(1)
            &&& after.capacity == frames.capacity
        }),
{
    let after = frames.sent(timestamp, serial);
    assert(after.queued.take(frames.queued.len() as int) =~= frames.queued);
    assert(after.free =~= frames.free.skip(1));
}

/// Taking a frame leaves all but the first, and giving one back makes its slot the last of the free
/// ones, without its timestamp. Neither touches the other frames.
pub proof fn law_taking_and_giving_back_leave_the_rest(frames: FrameQueueView, returned: Frame)
    ensures
        frames.queued.len() > 0 ==> {
            &&& frames.taken().queued == frames.queued.skip(1)
            &&& frames.taken().free == frames.free
            &&& frames.taken().capacity == frames.capacity
        },
        ({
            let after = frames.released(returned);
            &&& after.free.len() == frames.free.len() + 1
            &&& after.free.last().slot == returned.slot
            &&& after.free.last().timestamp == i64::MIN
            &&& after.free.last().serial == returned.serial
            &&& after.free.take(frames.free.len() as int) == frames.free
            &&& after.queued == frames.queued
            &&& after.capacity == frames.capacity
        }),
{
    let after = frames.released(returned);
    assert(after.free.take(frames.free.len() as int) =~= frames.free);
    if frames.queued.len() > 0 {
        assert(frames.taken().queued =~= frames.queued.skip(1));
    }
}

/// A flush makes the slots of all queued frames free, behind those that were, in the order of the
/// queue.
pub proof fn law_flush_frees_the_queue_in_order(frames: FrameQueueView, i: int)
    requires
        0 <= i < frames.queued.len(),
    ensures
        ({
            let after = frames.flushed();
            &&& after.free.len() == frames.free.len() + frames.queued.len()
            &&& after.free.take(frames.free.len() as int) == frames.free
            &&& after.free[frames.free.len() + i].slot == frames.queued[i].slot
            &&& after.free[frames.free.len() + i].timestamp == i64::MIN
            &&& after.capacity == frames.capacity
        }),
{
    assert(frames.flushed().free.take(frames.free.len() as int) =~= frames.free);
}

} // verus!
