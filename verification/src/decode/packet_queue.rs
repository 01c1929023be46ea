//! Queues of demuxed packets that wait for a decoder.
use crate::channel::Channel;
use crate::rational::{lasts_over_a_second, Rational};
use vstd::prelude::*;

verus! {

/// The handle of every empty packet. Decoders take an empty packet as the end of the stream.
pub const NULL_HANDLE: u64 = 0;

/// A queue with no more packets than this is never full enough.
pub const MIN_FRAMES: usize = 25;

/// A packet on its way to a decoder: the handle of its data, its length in units of the
/// stream's time base, and the generation of the queue that it was pushed in.
#[derive(Debug, Clone, Copy, PartialEq, Eq, Structural)]
pub struct Packet {
    pub handle: u64,
    pub duration: i64,
    pub serial: u32,
}

/// A packet as the channel carries it.
pub closed spec fn packet_of(item: (u64, i64, u32)) -> Packet {
    Packet { handle: item.0, duration: item.1, serial: item.2 }
}

/// The packets that a channel carries.
pub closed spec fn packets_of(items: Seq<(u64, i64, u32)>) -> Seq<Packet> {
    Seq::new(items.len(), |i: int| packet_of(items[i]))
}

/// The packets' lengths added up.
pub open spec fn total_duration(packets: Seq<Packet>) -> int
    decreases packets.len(),
{
    if packets.len() == 0 {
        0
    } else {
        total_duration(packets.drop_last()) + packets.last().duration
    }
}

/// The 64-bit counter value that stands for `total`: counters wrap around.
pub open spec fn wraps_to(counter: i64, total: int) -> bool {
    (counter - total) % 0x1_0000_0000_0000_0000 == 0
}

/// What a packet queue holds.
pub struct PacketQueueView {
    /// The packets that wait, the oldest first.
    pub packets: Seq<Packet>,
    /// The counter of their lengths.
    pub duration: i64,
    /// The generation of the queue.
    pub serial: u32,
    /// The index of the stream that the packets belong to.
    pub stream: usize,
}

/// The packets of one stream, in the order in which they were read.
///
/// Each flush starts a new generation. What was taken out before a flush can be told by its
/// serial number from what was pushed after it.
pub struct PacketQueue {
    channel: Channel,
    duration: i64,
    serial: u32,
    stream: usize,
}

impl View for PacketQueue {
    type V = PacketQueueView;

    closed spec fn view(&self) -> PacketQueueView {
        PacketQueueView {
            packets: packets_of(self.channel.items()),
            duration: self.duration,
            serial: self.serial,
            stream: self.stream,
        }
    }
}

impl PacketQueueView {
    /// The counter agrees with the packets that wait, and they are all of this generation.
    pub open spec fn consistent(&self) -> bool {
        &&& wraps_to(self.duration, total_duration(self.packets))
        &&& forall|i: int|
            0 <= i < self.packets.len() ==> (#[trigger] self.packets[i]).serial == self.serial
    }

    /// The queue with one more packet.
    pub open spec fn pushed(&self, handle: u64, duration: i64) -> PacketQueueView {
        PacketQueueView {
            packets: self.packets.push(Packet { handle, duration, serial: self.serial }),
            duration: vstd::wrapping::i64_specs::wrapping_add(self.duration, duration),
            ..*self
        }
    }

    /// The queue without its oldest packet.
    pub open spec fn popped(&self) -> PacketQueueView {
        PacketQueueView {
            packets: self.packets.drop_first(),
            duration: vstd::wrapping::i64_specs::wrapping_sub(
                self.duration,
                self.packets.first().duration,
            ),
            ..*self
        }
    }

    /// The queue emptied, one generation on.
    pub open spec fn flushed(&self) -> PacketQueueView {
        PacketQueueView {
            packets: Seq::empty(),
            duration: 0,
            serial: vstd::wrapping::u32_specs::wrapping_add(self.serial, 1),
            ..*self
        }
    }
}

proof fn lemma_total_of_push(packets: Seq<Packet>, packet: Packet)
    ensures
        total_duration(packets.push(packet)) == total_duration(packets) + packet.duration,
{
    assert(packets.push(packet).drop_last() == packets);
}

proof fn lemma_total_of_rest(packets: Seq<Packet>)
    requires
        packets.len() > 0,
    ensures
        total_duration(packets.drop_first()) == total_duration(packets) - packets.first().duration,
    decreases packets.len(),
{
    reveal_with_fuel(total_duration, 2);
    if packets.len() > 1 {
        lemma_total_of_rest(packets.drop_last());
        assert(packets.drop_first().drop_last() == packets.drop_last().drop_first());
    } else {
        assert(packets.drop_last() == Seq::<Packet>::empty());
    }
}

impl PacketQueue {
    /// The queue can be used, and what it says of itself is right.
    pub closed spec fn wf(&self) -> bool {
        &&& self.channel.wf()
        &&& self.channel.limit() is None
        &&& self@.consistent()
    }

    /// A well-formed queue is consistent.
    pub proof fn lemma_wf_is_consistent(&self)
        requires
            self.wf(),
        ensures
            self@.consistent(),
    {
    }

    /// An empty queue for the packets of the stream of this index.
    pub fn new(stream: usize) -> (queue: PacketQueue)
        ensures
            queue.wf(),
            queue@ == (PacketQueueView {
                packets: Seq::empty(),
                duration: 0,
                serial: 0,
                stream,
            }),
    {
        let queue = PacketQueue { channel: Channel::unbounded(), duration: 0, serial: 0, stream };
        assert(queue@.packets == Seq::<Packet>::empty());
        queue
    }

    /// Appends a packet of the present generation.
    pub fn push(&mut self, handle: u64, duration: i64)
        requires
            old(self).wf(),
        ensures
            final(self).wf(),
            final(self)@ == old(self)@.pushed(handle, duration),
    {
        let ghost before = self@;
        self.duration = self.duration.wrapping_add(duration);
        self.channel.send((handle, duration, self.serial));
        proof {
            let packet = Packet { handle, duration, serial: self.serial };
            assert(self@.packets == before.packets.push(packet));
            lemma_total_of_push(before.packets, packet);
        }
    }

    /// Appends an empty packet, which tells the decoder that the stream ends here.
    pub fn push_null(&mut self)
        requires
            old(self).wf(),
        ensures
            final(self).wf(),
            final(self)@ == old(self)@.pushed(NULL_HANDLE, 0),
    {
        self.push(NULL_HANDLE, 0);
    }

    /// Takes the oldest packet.
    pub fn try_receive(&mut self) -> (packet: Option<Packet>)
        requires
            old(self).wf(),
        ensures
            final(self).wf(),
            match packet {
                Some(taken) => {
                    &&& old(self)@.packets.len() > 0
                    &&& taken == old(self)@.packets.first()
                    &&& taken.serial == old(self)@.serial
                    &&& final(self)@ == old(self)@.popped()
                },
                None => {
                    &&& old(self)@.packets.len() == 0
                    &&& final(self)@ == old(self)@
                },
            },
    {
        let ghost before = self@;
        match self.channel.try_receive() {
            Some(item) => {
                self.duration = self.duration.wrapping_sub(item.1);
                proof {
                    assert(self@.packets == before.packets.drop_first());
                    lemma_total_of_rest(before.packets);
                }
                Some(Packet { handle: item.0, duration: item.1, serial: item.2 })
            },
            None => None,
        }
    }

    /// Whether more than `MIN_FRAMES` packets wait, and together last more than one second.
    pub fn has_enough_packets(&self, time_base: Rational) -> (enough: bool)
        requires
            self.wf(),
        ensures
            enough == (self@.packets.len() > MIN_FRAMES && lasts_over_a_second(
                time_base,
                self@.duration,
            )),
    {
        self.channel.len() > MIN_FRAMES && time_base.over_a_second(self.duration)
    }

    /// Empties the queue and starts the next generation. The packets that were dropped are
    /// returned, so that their data can be freed.
    pub fn flush(&mut self) -> (dropped: Vec<Packet>)
        requires
            old(self).wf(),
        ensures
            final(self).wf(),
            final(self)@ == old(self)@.flushed(),
            dropped@ == old(self)@.packets,
    {
        let mut dropped: Vec<Packet> = Vec::new();
        let ghost all = self@.packets;
        loop
            invariant
                self.channel.wf(),
                self.channel.limit() is None,
                self.serial == old(self)@.serial,
                self.stream == old(self)@.stream,
                dropped@ + packets_of(self.channel.items()) == all,
            ensures
                self.channel.items().len() == 0,
            decreases self.channel.items().len(),
        {
            let ghost rest = packets_of(self.channel.items());
            match self.channel.try_receive() {
                Some(item) => {
                    let packet = Packet { handle: item.0, duration: item.1, serial: item.2 };
                    let ghost earlier = dropped@;
                    dropped.push(packet);
                    proof {
                        assert(packets_of(self.channel.items()) == rest.drop_first());
                        assert(dropped@ + packets_of(self.channel.items()) == earlier + rest);
                    }
                },
                None => {
                    break;
                },
            }
        }
        self.duration = 0;
        self.serial = self.serial.wrapping_add(1);
        proof {
            assert(dropped@ == all);
            assert(self@.packets == Seq::<Packet>::empty());
        }
        dropped
    }

    /// How many packets wait.
    pub fn len(&self) -> (count: usize)
        requires
            self.wf(),
        ensures
            count == self@.packets.len(),
    {
        self.channel.len()
    }

    /// Whether no packet waits.
    pub fn is_empty(&self) -> (empty: bool)
        requires
            self.wf(),
        ensures
            empty == (self@.packets.len() == 0),
    {
        self.channel.len() == 0
    }

    /// The generation of the queue.
    pub fn serial(&self) -> (serial: u32)
        ensures
            serial == self@.serial,
    {
        self.serial
    }

    /// The counter of the lengths of the packets that wait.
    pub fn duration(&self) -> (duration: i64)
        ensures
            duration == self@.duration,
    {
        self.duration
    }

    /// The index of the stream that the packets belong to.
    pub fn stream(&self) -> (stream: usize)
        ensures
            stream == self@.stream,
    {
        self.stream
    }
}

/// What a decoder does with a packet that came out of its queue.
#[derive(Debug, Clone, Copy, PartialEq, Eq, Structural)]
pub struct PacketStep {
    /// The decoder is flushed first: what it holds is of another generation.
    pub flush: bool,
    /// The packet is decoded. It is dropped where the queue is at another generation by now.
    pub decode: bool,
}

/// What a decoder that last took a packet of the generation `last` does with this packet while
/// the queue is at the generation `current`.
pub open spec fn packet_step(last: u32, packet: Packet, current: u32) -> PacketStep {
    PacketStep { flush: last != packet.serial, decode: packet.serial == current }
}

/// What a decoder does with a packet. `last` is the generation of its last packet, and that of
/// this packet afterwards.
pub fn accept_packet(last: &mut u32, packet: Packet, current: u32) -> (step: PacketStep)
    ensures
        step == packet_step(*old(last), packet, current),
        *final(last) == packet.serial,
{
    let flush = *last != packet.serial;
    if flush {
        *last = packet.serial;
    }
    PacketStep { flush, decode: *last == current }
}

/// A packet that was taken before a flush is not decoded after it, and a decoder is flushed
/// between two packets exactly where they are of different generations.
pub proof fn law_outdated_packets_are_not_decoded(
    queue: PacketQueueView,
    packet: Packet,
    next: Packet,
)
    requires
        packet.serial == queue.serial,
    ensures
        forall|last: u32| !(#[trigger] packet_step(last, packet, queue.flushed().serial)).decode,
        forall|current: u32| (#[trigger] packet_step(packet.serial, next, current)).flush <==>
            packet.serial != next.serial,
{
}

/// Packets come out in the order in which they went in. What is pushed onto an empty queue
/// comes out next, and leaves the queue as it was; onto any other queue, a push changes nothing
/// about what comes out next, and it does not matter which of the two happens first.
pub proof fn law_first_in_first_out(queue: PacketQueueView, handle: u64, duration: i64)
    ensures
        queue.packets.len() == 0 ==> {
            &&& queue.pushed(handle, duration).packets.first() == (Packet {
                handle,
                duration,
                serial: queue.serial,
            })
            &&& queue.pushed(handle, duration).popped() == queue
        },
        queue.packets.len() > 0 ==> {
            &&& queue.pushed(handle, duration).packets.first() == queue.packets.first()
            &&& queue.pushed(handle, duration).popped() == queue.popped().pushed(handle, duration)
        },
{
    let pushed = queue.pushed(handle, duration);
    if queue.packets.len() == 0 {
        assert(pushed.popped().packets == queue.packets);
    } else {
        assert(pushed.popped().packets == queue.popped().pushed(handle, duration).packets);
    }
}

/// Pushing, taking and flushing keep the counter in step with the packets that wait, and every
/// waiting packet in the present generation.
pub proof fn law_queue_stays_consistent(queue: PacketQueueView, handle: u64, duration: i64)
    requires
        queue.consistent(),
    ensures
        queue.pushed(handle, duration).consistent(),
        queue.packets.len() > 0 ==> queue.popped().consistent(),
        queue.flushed().consistent(),
{
    lemma_total_of_push(queue.packets, Packet { handle, duration, serial: queue.serial });
    if queue.packets.len() > 0 {
        lemma_total_of_rest(queue.packets);
    }
}

/// A packet that was taken before a flush is not of the generation that follows it; a packet
/// that is pushed after the flush is.
pub proof fn law_flush_outdates_packets(queue: PacketQueueView, handle: u64, duration: i64)
    requires
        queue.consistent(),
        queue.packets.len() > 0,
    ensures
        queue.packets.first().serial != queue.popped().flushed().serial,
        queue.packets.first().serial != queue.popped().flushed().pushed(handle, duration).serial,
        queue.popped().flushed().pushed(handle, duration).packets.first().serial
            == queue.popped().flushed().serial,
{
}

/// A pushed packet comes last, with its own handle and length and the queue's generation, and
/// nothing before it changes. Taking one leaves all but the first. Both leave the generation and
/// the stream.
pub proof fn law_pushing_and_taking_leave_the_rest(
    queue: PacketQueueView,
    handle: u64,
    duration: i64,
)
    ensures
        ({
            let pushed = queue.pushed(handle, duration);
            &&& pushed.packets.len() == queue.packets.len() + 1
            &&& pushed.packets.last().handle == handle
            &&& pushed.packets.last().duration == duration
            &&& pushed.packets.last().serial == queue.serial
            &&& pushed.packets.take(queue.packets.len() as int) == queue.packets
            &&& pushed.serial == queue.serial
            &&& pushed.stream == queue.stream
            &&& i64::MIN <= queue.duration + duration <= i64::MAX ==> pushed.duration
                == queue.duration + duration
        }),
        queue.packets.len() > 0 ==> {
            let popped = queue.popped();
            &&& popped.packets == queue.packets.skip(1)
            &&& popped.serial == queue.serial
            &&& popped.stream == queue.stream
            &&& i64::MIN <= queue.duration - queue.packets[0].duration <= i64::MAX
                ==> popped.duration == queue.duration - queue.packets[0].duration
        },
{
    assert(queue.pushed(handle, duration).packets.take(queue.packets.len() as int)
        =~= queue.packets);
    if queue.packets.len() > 0 {
        assert(queue.popped().packets =~= queue.packets.skip(1));
    }
}

/// A flush leaves nothing waiting, moves the generation on by one, around the end of its range, and
/// leaves the stream.
pub proof fn law_flush_moves_on_by_one(queue: PacketQueueView)
    ensures
        queue.flushed().packets.len() == 0,
        queue.flushed().duration == 0,
        queue.flushed().stream == queue.stream,
        queue.serial < u32::MAX ==> queue.flushed().serial == queue.serial + 1,
        queue.serial == u32::MAX ==> queue.flushed().serial == 0,
{
}

/// A packet is decoded exactly where it is of the generation that the queue is at, and the decoder
/// is flushed for it exactly where its last packet was of another.
pub proof fn law_serial_numbers_decide(last: u32, packet: Packet, current: u32)
    ensures
        packet_step(last, packet, current).decode <==> packet.serial == current,
        packet_step(last, packet, current).flush <==> packet.serial != last,
{
}

} // verus!
