use vstd::prelude::*;
use dashmap::DashMap;
use tokio::sync::broadcast::{self, Receiver, Sender};

verus! {

/// The event name under which every frame is pushed.
pub const EVENT_NAME: &'static str = "taqui";

/// How many frames a channel keeps for a receiver that lags behind; older ones
/// are dropped for that receiver.
pub const CHANNEL_CAPACITY: usize = 128;

/// How long a live stream may stay silent before a keep-alive goes out, in seconds.
pub const KEEP_ALIVE_SECS: u64 = 30;

/// The text of a keep-alive.
pub const KEEP_ALIVE_TEXT: &'static str = "keep-alive";

/// A destination for live updates.
#[derive(Debug, Clone, Copy, PartialEq, Eq, Hash)]
pub enum Subscription {
    Group(u128),
}

/// A named server-push event carrying a JSON payload.
#[derive(Debug, Clone, PartialEq, Eq)]
pub struct Frame {
    pub event: &'static str,
    pub data: String,
}

/// The frame that carries `payload`.
pub open spec fn frame_of(payload: String) -> Frame {
    Frame { event: EVENT_NAME, data: payload }
}

impl Frame {
    pub fn new(payload: String) -> (r: Frame)
        ensures
            r == frame_of(payload),
    {
        Frame { event: EVENT_NAME, data: payload }
    }
}

#[verifier::external_type_specification]
#[verifier::external_body]
#[verifier::reject_recursive_types(T)]
pub struct ExSender<T>(tokio::sync::broadcast::Sender<T>);

#[verifier::external_type_specification]
#[verifier::external_body]
#[verifier::reject_recursive_types(T)]
pub struct ExReceiver<T>(tokio::sync::broadcast::Receiver<T>);

/// A concurrent map from destinations to the senders of their channels.
pub type ChannelTable = DashMap<Subscription, Sender<Frame>>;

/// The senders that a table holds, by destination.
pub uninterp spec fn channel_table(m: ChannelTable) -> Map<Subscription, Sender<Frame>>;

/// The channel that a sender sends on.
pub uninterp spec fn sender_channel(tx: Sender<Frame>) -> int;

/// The channel that a receiver receives from.
pub uninterp spec fn receiver_channel(rx: Receiver<Frame>) -> int;

/// Relies on dashmap::DashMap::new: the new map is empty.
#[verifier::external_body]
fn new_channel_table() -> (r: ChannelTable)
    ensures
        channel_table(r).is_empty(),
{
    DashMap::new()
}

/// Relies on dashmap::DashMap::get and broadcast::Sender::clone: a handle on the
/// channel stored under `s`, if there is one.
#[verifier::external_body]
fn sender_for(m: &ChannelTable, s: &Subscription) -> (r: Option<Sender<Frame>>)
    ensures
        r.is_some() == channel_table(*m).contains_key(*s),
        r.is_some() ==> sender_channel(r->Some_0) == sender_channel(channel_table(*m)[*s]),
{
    m.get(s).map(|tx| tx.clone())
}

/// Relies on dashmap::DashMap::insert: `s` maps to `tx` afterwards, the rest is kept.
#[verifier::external_body]
fn store_sender(m: &mut ChannelTable, s: Subscription, tx: Sender<Frame>)
    ensures
        channel_table(*final(m)) == channel_table(*old(m)).insert(s, tx),
{
    m.insert(s, tx);
}

/// Relies on tokio::sync::broadcast::channel, which panics on a capacity of zero
/// or above half of `usize`: a new channel and its first receiver.
#[verifier::external_body]
fn open_channel(capacity: usize) -> (r: (Sender<Frame>, Receiver<Frame>))
    requires
        0 < capacity <= usize::MAX / 2,
    ensures
        receiver_channel(r.1) == sender_channel(r.0),
{
    broadcast::channel(capacity)
}

/// Relies on tokio::sync::broadcast::Sender::subscribe: a receiver of what is sent from now on.
#[verifier::external_body]
fn open_receiver(tx: &Sender<Frame>) -> (r: Receiver<Frame>)
    ensures
        receiver_channel(r) == sender_channel(*tx),
{
    tx.subscribe()
}

/// Relies on tokio::sync::broadcast::Sender::send: hands `frame` to every current
/// receiver without waiting; with none, the frame is dropped.
#[verifier::external_body]
fn publish(tx: &Sender<Frame>, frame: Frame) {
    let _ = tx.send(frame);
}

/// Every destination that has a channel in `before` has the very same channel in `after`.
pub open spec fn keeps_channels(
    before: Map<Subscription, Sender<Frame>>,
    after: Map<Subscription, Sender<Frame>>,
) -> bool {
    forall|s: Subscription| #[trigger]
        before.contains_key(s) ==> after.contains_key(s) && after[s] == before[s]
}

/// A destination keeps the channel it first got for good: over any run of
/// subscribes and sends, each of which keeps the channels there were, every
/// later table holds every channel of every earlier one. So a receiver taken
/// from a destination's channel stays attached to the channel that each later
/// send to that destination publishes on.
pub proof fn lemma_channels_persist(history: Seq<Map<Subscription, Sender<Frame>>>, i: int, j: int)
    requires
        forall|k: int| 0 <= k < history.len() - 1 ==> #[trigger] keeps_channels(history[k], history[k + 1]),
        0 <= i <= j < history.len(),
    ensures
        keeps_channels(history[i], history[j]),
    decreases j - i,
{
    if i < j {
        let k = j - 1;
        lemma_channels_persist(history, i, k);
        assert(keeps_channels(history[k], history[k + 1]));
        assert(k + 1 == j);
    }
}

/// Two receivers of one destination, taken at any two points of a run of
/// subscribes and sends, are on the same channel: the destination's one channel,
/// which a later subscriber joins rather than replaces.
pub proof fn lemma_subscribers_share_channel(
    history: Seq<Map<Subscription, Sender<Frame>>>,
    topic: Subscription,
    first: Receiver<Frame>,
    i: int,
    second: Receiver<Frame>,
    j: int,
)
    requires
        forall|k: int| 0 <= k < history.len() - 1 ==> #[trigger] keeps_channels(history[k], history[k + 1]),
        0 <= i <= j < history.len(),
        history[i].contains_key(topic),
        receiver_channel(first) == sender_channel(history[i][topic]),
        history[j].contains_key(topic),
        receiver_channel(second) == sender_channel(history[j][topic]),
    ensures
        receiver_channel(first) == receiver_channel(second),
{
    lemma_channels_persist(history, i, j);
}

/// One multicast channel per destination, created by the first subscribe to it
/// and kept for the life of the process.
#[derive(Debug)]
pub struct Subscriptions {
    subscriptions: ChannelTable,
}

impl Subscriptions {
    /// The channels by destination.
    pub closed spec fn channels(&self) -> Map<Subscription, Sender<Frame>> {
        channel_table(self.subscriptions)
    }

    pub fn new() -> (r: Subscriptions)
        ensures
            r.channels().is_empty(),
    {
        Subscriptions { subscriptions: new_channel_table() }
    }

    /// What a send of `payload` to `subscription` hands to the channel: a handle
    /// on the destination's one channel and the payload's frame; nothing where
    /// the destination has no channel.
    pub fn outgoing(&self, payload: String, subscription: &Subscription) -> (r: Option<(Sender<Frame>, Frame)>)
        ensures
            r.is_some() == self.channels().contains_key(*subscription),
            r.is_some() ==> sender_channel(r->Some_0.0) == sender_channel(self.channels()[*subscription]),
            r.is_some() ==> r->Some_0.1 == frame_of(payload),
    {
        match sender_for(&self.subscriptions, subscription) {
            Some(tx) => Some((tx, Frame::new(payload))),
            None => None,
        }
    }

    /// Publishes `payload` to every current subscriber of `subscription`, framed
    /// under the event name, on the channel that `outgoing` gives. Returns
    /// whether a channel existed; without one the payload is dropped and no
    /// channel is created.
    pub fn send(&self, payload: String, subscription: &Subscription) -> (r: bool)
        ensures
            r == self.channels().contains_key(*subscription),
    {
        match self.outgoing(payload, subscription) {
            Some((tx, frame)) => {
                publish(&tx, frame);
                true
            },
            None => false,
        }
    }

    /// A new receiver of what is sent to `subscription` from now on, on that
    /// destination's one channel; the channel is created if it has none, and an
    /// existing channel is kept as it is.
    pub fn subscribe(&mut self, subscription: &Subscription) -> (r: Receiver<Frame>)
        ensures
            final(self).channels().contains_key(*subscription),
            receiver_channel(r) == sender_channel(final(self).channels()[*subscription]),
            final(self).channels().dom() == old(self).channels().dom().insert(*subscription),
            keeps_channels(old(self).channels(), final(self).channels()),
    {
        match sender_for(&self.subscriptions, subscription) {
            Some(tx) => {
                let rx = open_receiver(&tx);
                proof {
                    assert(self.channels().dom() =~= self.channels().dom().insert(*subscription));
                }
                rx
            },
            None => {
                let (tx, rx) = open_channel(CHANNEL_CAPACITY);
                store_sender(&mut self.subscriptions, *subscription, tx);
                rx
            },
        }
    }
}

} // verus!
