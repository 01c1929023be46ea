//! First-in, first-out channels of small items, over `crossbeam_channel`.
//!
//! A `Channel` owns both halves of its channel and never gives either away or clones it, so
//! what waits in it changes through the `Channel` alone. Threads share the structure that
//! holds the `Channel`, not its halves.
use crossbeam_channel::{Receiver, Sender};
use vstd::prelude::*;

verus! {

/// The sending half of a `crossbeam_channel` channel.
#[verifier::external_type_specification]
#[verifier::external_body]
#[verifier::reject_recursive_types(T)]
pub struct ExSender<T>(Sender<T>);

/// The receiving half of a `crossbeam_channel` channel.
#[verifier::external_type_specification]
#[verifier::external_body]
#[verifier::reject_recursive_types(T)]
pub struct ExReceiver<T>(Receiver<T>);

/// The items that wait in a channel, the oldest first.
pub uninterp spec fn waiting_items(
    ends: (Sender<(u64, i64, u32)>, Receiver<(u64, i64, u32)>),
) -> Seq<(u64, i64, u32)>;

/// How many items a channel was made to hold at once; `None` where there is no limit.
pub uninterp spec fn item_limit(
    ends: (Sender<(u64, i64, u32)>, Receiver<(u64, i64, u32)>),
) -> Option<nat>;

/// The two halves belong to one channel and are the only handles on it.
pub uninterp spec fn sole_handles(
    ends: (Sender<(u64, i64, u32)>, Receiver<(u64, i64, u32)>),
) -> bool;

/// The largest limit that a channel can be asked for: its buffer is laid out at once, and for
/// limits up to this one the size of that buffer can be expressed on every platform.
pub const LARGEST_LIMIT: usize = 0x3ff_ffff;

/// Calls `crossbeam_channel::unbounded`, which makes an empty channel without a limit and
/// returns its only two handles.
#[verifier::external_body]
fn open_unbounded() -> (ends: (Sender<(u64, i64, u32)>, Receiver<(u64, i64, u32)>))
    ensures
        sole_handles(ends),
        waiting_items(ends) == Seq::<(u64, i64, u32)>::empty(),
        item_limit(ends) is None,
{
    crossbeam_channel::unbounded()
}

/// Calls `crossbeam_channel::bounded`, which makes an empty channel that holds at most `limit`
/// items and returns its only two handles. It panics where the limit is too large for its
/// buffer.
#[verifier::external_body]
fn open_bounded(limit: usize) -> (ends: (Sender<(u64, i64, u32)>, Receiver<(u64, i64, u32)>))
    requires
        limit <= LARGEST_LIMIT,
    ensures
        sole_handles(ends),
        waiting_items(ends) == Seq::<(u64, i64, u32)>::empty(),
        item_limit(ends) == Some(limit as nat),
{
    crossbeam_channel::bounded(limit)
}

/// Calls `crossbeam_channel::Sender::send`, which appends the item. It waits while the channel
/// is full, and fails only where the receiving half is gone, which is held here.
#[verifier::external_body]
fn send_item(
    ends: &mut (Sender<(u64, i64, u32)>, Receiver<(u64, i64, u32)>),
    item: (u64, i64, u32),
)
    requires
        sole_handles(*old(ends)),
        item_limit(*old(ends)) matches Some(limit) ==> waiting_items(*old(ends)).len() < limit,
    ensures
        sole_handles(*final(ends)),
        waiting_items(*final(ends)) == waiting_items(*old(ends)).push(item),
        item_limit(*final(ends)) == item_limit(*old(ends)),
{
    ends.0.send(item).unwrap()
}

/// Calls `crossbeam_channel::Receiver::try_recv`, which takes the oldest item, and takes
/// nothing where no item waits.
#[verifier::external_body]
fn try_receive_item(
    ends: &mut (Sender<(u64, i64, u32)>, Receiver<(u64, i64, u32)>),
) -> (item: Option<(u64, i64, u32)>)
    requires
        sole_handles(*old(ends)),
    ensures
        sole_handles(*final(ends)),
        item_limit(*final(ends)) == item_limit(*old(ends)),
        match item {
            Some(taken) => {
                &&& waiting_items(*old(ends)).len() > 0
                &&& taken == waiting_items(*old(ends)).first()
                &&& waiting_items(*final(ends)) == waiting_items(*old(ends)).drop_first()
            },
            None => {
                &&& waiting_items(*old(ends)).len() == 0
                &&& waiting_items(*final(ends)) == waiting_items(*old(ends))
            },
        },
{
    ends.1.try_recv().ok()
}

/// Calls `crossbeam_channel::Receiver::len`, which counts the items that wait.
#[verifier::external_body]
fn count_items(ends: &(Sender<(u64, i64, u32)>, Receiver<(u64, i64, u32)>)) -> (count: usize)
    requires
        sole_handles(*ends),
    ensures
        count == waiting_items(*ends).len(),
{
    ends.1.len()
}

/// A first-in, first-out queue of items, each a handle, a time and a serial number.
pub struct Channel {
    ends: (Sender<(u64, i64, u32)>, Receiver<(u64, i64, u32)>),
}

impl Channel {
    /// The items that wait, the oldest first.
    pub closed spec fn items(&self) -> Seq<(u64, i64, u32)> {
        waiting_items(self.ends)
    }

    /// How many items fit; `None` where there is no limit.
    pub closed spec fn limit(&self) -> Option<nat> {
        item_limit(self.ends)
    }

    /// The channel is in one piece and holds no more than it may.
    pub closed spec fn wf(&self) -> bool {
        &&& sole_handles(self.ends)
        &&& item_limit(self.ends) matches Some(limit) ==> waiting_items(self.ends).len() <= limit
    }

    /// A channel that takes any number of items.
    pub fn unbounded() -> (channel: Channel)
        ensures
            channel.wf(),
            channel.items() == Seq::<(u64, i64, u32)>::empty(),
            channel.limit() is None,
    {
        Channel { ends: open_unbounded() }
    }

    /// A channel that takes `limit` items.
    pub fn bounded(limit: usize) -> (channel: Channel)
        requires
            limit <= LARGEST_LIMIT,
        ensures
            channel.wf(),
            channel.items() == Seq::<(u64, i64, u32)>::empty(),
            channel.limit() == Some(limit as nat),
    {
        Channel { ends: open_bounded(limit) }
    }

    /// Appends an item.
    pub fn send(&mut self, item: (u64, i64, u32))
        requires
            old(self).wf(),
            old(self).limit() matches Some(limit) ==> old(self).items().len() < limit,
        ensures
            final(self).wf(),
            final(self).items() == old(self).items().push(item),
            final(self).limit() == old(self).limit(),
    {
        send_item(&mut self.ends, item);
    }

    /// Takes the oldest item.
    pub fn try_receive(&mut self) -> (item: Option<(u64, i64, u32)>)
        requires
            old(self).wf(),
        ensures
            final(self).wf(),
            final(self).limit() == old(self).limit(),
            match item {
                Some(taken) => {
                    &&& old(self).items().len() > 0
                    &&& taken == old(self).items().first()
                    &&& final(self).items() == old(self).items().drop_first()
                },
                None => {
                    &&& old(self).items().len() == 0
                    &&& final(self).items() == old(self).items()
                },
            },
    {
        try_receive_item(&mut self.ends)
    }

    /// How many items wait.
    pub fn len(&self) -> (count: usize)
        requires
            self.wf(),
        ensures
            count == self.items().len(),
    {
        count_items(&self.ends)
    }
}

} // verus!
