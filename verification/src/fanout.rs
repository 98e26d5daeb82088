//! The fan-out broadcaster: one producer, any number of subscribers, each at
//! its own pace. The producer never waits: a subscriber that falls behind by
//! more than the capacity loses the oldest frames and is told how many.

use crate::frame::{RelayFrame, RelayFrameView};
use std::collections::VecDeque;
use vstd::prelude::*;

verus! {

/// Number of frames that the relay keeps for its subscribers.
pub const CHANNEL_CAPACITY: usize = 100;

/// What a broadcaster is, seen from outside: its capacity, every frame it has
/// accepted since it was made, the number of its subscribers, and whether the
/// producer side is closed.
pub struct BroadcasterView {
    pub capacity: nat,
    pub log: Seq<RelayFrameView>,
    pub subscribers: nat,
    pub closed: bool,
}

/// What one call of `consume` yields.
pub enum ConsumedView {
    /// The next frame of the subscription.
    Frame(RelayFrameView),
    /// The subscription fell behind; so many frames were skipped.
    Lagged(nat),
    /// The producer side is closed and every retained frame was consumed.
    Closed,
    /// Nothing to consume yet.
    Pending,
}

impl BroadcasterView {
    /// Whether a published frame is taken in: the broadcaster is open and has
    /// a subscriber.
    pub open spec fn accepts(self) -> bool {
        !self.closed && self.subscribers > 0
    }

    /// The broadcaster after `frame` was published.
    pub open spec fn publish(self, frame: RelayFrameView) -> BroadcasterView {
        if self.accepts() {
            BroadcasterView { log: self.log.push(frame), ..self }
        } else {
            self
        }
    }

    /// The broadcaster after every frame of `frames` was published, in order.
    pub open spec fn publish_all(self, frames: Seq<RelayFrameView>) -> BroadcasterView
        decreases frames.len(),
    {
        if frames.len() == 0 {
            self
        } else {
            self.publish_all(frames.drop_last()).publish(frames.last())
        }
    }

    /// The broadcaster after one more subscription was made.
    pub open spec fn subscribe(self) -> BroadcasterView {
        BroadcasterView { subscribers: self.subscribers + 1, ..self }
    }

    /// The broadcaster after one subscription was given up.
    pub open spec fn unsubscribe(self) -> BroadcasterView {
        BroadcasterView {
            subscribers: if self.subscribers > 0 {
                (self.subscribers - 1) as nat
            } else {
                0
            },
            ..self
        }
    }

    /// The broadcaster after the producer side was closed.
    pub open spec fn close(self) -> BroadcasterView {
        BroadcasterView { closed: true, ..self }
    }

    /// Position in the log of the oldest frame that is still retained.
    pub open spec fn oldest(self) -> nat {
        if self.log.len() > self.capacity {
            (self.log.len() - self.capacity) as nat
        } else {
            0
        }
    }

    /// Whether a subscription at `cursor` has fallen behind by more than the
    /// capacity.
    pub open spec fn lagging(self, cursor: nat) -> bool {
        self.log.len() - cursor > self.capacity
    }

    /// What a subscription at `cursor` consumes next, and where it stands
    /// afterwards.
    pub open spec fn consume(self, cursor: nat) -> (nat, ConsumedView) {
        if self.lagging(cursor) {
            (self.oldest(), ConsumedView::Lagged((self.oldest() - cursor) as nat))
        } else if cursor < self.log.len() {
            (cursor + 1, ConsumedView::Frame(self.log[cursor as int]))
        } else if self.closed {
            (cursor, ConsumedView::Closed)
        } else {
            (cursor, ConsumedView::Pending)
        }
    }
}

/// Publishing only ever adds to the end of the log: what was published
/// before stays where it was.
pub proof fn lemma_publish_extends_log(hub: BroadcasterView, frame: RelayFrameView)
    ensures
        hub.log.is_prefix_of(hub.publish(frame).log),
        hub.accepts() ==> hub.publish(frame).log == hub.log.push(frame),
        !hub.accepts() ==> hub.publish(frame) == hub,
        hub.publish(frame).capacity == hub.capacity,
        hub.publish(frame).subscribers == hub.subscribers,
        hub.publish(frame).closed == hub.closed,
{
    if hub.accepts() {
        assert(hub.log.push(frame).subrange(0, hub.log.len() as int) =~= hub.log);
    } else {
        assert(hub.log.subrange(0, hub.log.len() as int) =~= hub.log);
    }
}

/// A broadcaster that accepts frames takes in a whole burst, in order.
pub proof fn lemma_publish_all(hub: BroadcasterView, frames: Seq<RelayFrameView>)
    ensures
        hub.accepts() ==> hub.publish_all(frames).log == hub.log + frames,
        !hub.accepts() ==> hub.publish_all(frames) == hub,
        hub.publish_all(frames).capacity == hub.capacity,
        hub.publish_all(frames).subscribers == hub.subscribers,
        hub.publish_all(frames).closed == hub.closed,
    decreases frames.len(),
{
    if frames.len() == 0 {
        assert(hub.log + frames =~= hub.log);
    } else {
        lemma_publish_all(hub, frames.drop_last());
        if hub.accepts() {
            assert((hub.log + frames.drop_last()).push(frames.last()) =~= hub.log + frames);
        }
    }
}

/// No replay. A frame published while nobody subscribes leaves no trace. A
/// subscription starts at the end of the log as it is when the subscription
/// is made, so its first `consume` finds nothing there: no frame published
/// before the subscription is ever handed to it.
pub proof fn lemma_no_replay(hub: BroadcasterView, frame: RelayFrameView)
    ensures
        hub.subscribers == 0 ==> hub.publish(frame) == hub,
        ({
            let published = hub.publish(frame);
            let cursor = published.log.len();
            let subscribed = published.subscribe();
            &&& subscribed.log == published.log
            &&& subscribed.consume(cursor).0 == cursor
            &&& subscribed.consume(cursor).1 == if hub.closed {
                ConsumedView::Closed
            } else {
                ConsumedView::Pending
            }
        }),
{
}

/// A subscription never moves back, and a frame that it is handed is the one
/// that the log holds at its cursor.
pub proof fn lemma_consume_moves_forward(hub: BroadcasterView, cursor: nat)
    ensures
        hub.consume(cursor).0 >= cursor,
        hub.consume(cursor).1 matches ConsumedView::Frame(frame) ==> cursor < hub.log.len()
            && frame == hub.log[cursor as int] && hub.consume(cursor).0 == cursor + 1,
        hub.consume(cursor).1 matches ConsumedView::Lagged(skipped) ==> skipped >= 1
            && hub.consume(cursor).0 == cursor + skipped && hub.consume(cursor).0
            + hub.capacity == hub.log.len(),
        hub.consume(cursor).1 is Closed ==> hub.closed && cursor >= hub.log.len(),
        hub.consume(cursor).1 is Pending ==> !hub.closed && cursor >= hub.log.len(),
{
}

/// Lag. A subscription that has fallen behind by more than the capacity is
/// told how many frames it lost, which are all but the newest `capacity`, and
/// is handed the oldest retained frame by the `consume` after that.
pub proof fn lemma_lag(hub: BroadcasterView, cursor: nat)
    requires
        hub.capacity >= 1,
        hub.log.len() - cursor > hub.capacity,
    ensures
        hub.consume(cursor) == (
            (hub.log.len() - hub.capacity) as nat,
            ConsumedView::Lagged((hub.log.len() - hub.capacity - cursor) as nat),
        ),
        hub.consume((hub.log.len() - hub.capacity) as nat) == (
            (hub.log.len() - hub.capacity + 1) as nat,
            ConsumedView::Frame(hub.log[hub.log.len() - hub.capacity]),
        ),
{
}

/// A subscriber that consumes nothing while a burst of more frames than the
/// capacity is published loses the first frames of the burst, all but the
/// newest `capacity`; the first frame it is handed afterwards is the oldest
/// of those.
pub proof fn lemma_lag_after_burst(hub: BroadcasterView, frames: Seq<RelayFrameView>)
    requires
        hub.capacity >= 1,
        hub.accepts(),
        frames.len() > hub.capacity,
    ensures
        ({
            let cursor = hub.log.len();
            let lost = (frames.len() - hub.capacity) as nat;
            let after = hub.publish_all(frames);
            &&& after.consume(cursor) == (cursor + lost, ConsumedView::Lagged(lost))
            &&& after.consume(cursor + lost) == (
                cursor + lost + 1,
                ConsumedView::Frame(frames[lost as int]),
            )
        }),
{
    lemma_publish_all(hub, frames);
    let after = hub.publish_all(frames);
    lemma_lag(after, hub.log.len());
}

/// The cursor of one subscriber into the stream of published frames.
#[derive(Debug)]
pub struct Subscription {
    cursor: u64,
}

impl View for Subscription {
    type V = nat;

    closed spec fn view(&self) -> nat {
        self.cursor as nat
    }
}

impl Subscription {
    /// Position in the log of the frame that the subscription consumes next.
    pub fn position(&self) -> (r: u64)
        ensures
            r == self@,
    {
        self.cursor
    }
}

/// What one call of [`Broadcaster::consume`] yields.
#[derive(Debug, PartialEq, Eq)]
pub enum Consumed {
    /// The next frame of the subscription.
    Frame(RelayFrame),
    /// The subscription fell behind; so many frames were skipped.
    Lagged(u64),
    /// The producer side is closed and every retained frame was consumed.
    Closed,
    /// Nothing to consume yet.
    Pending,
}

impl View for Consumed {
    type V = ConsumedView;

    open spec fn view(&self) -> ConsumedView {
        match self {
            Consumed::Frame(frame) => ConsumedView::Frame(frame@),
            Consumed::Lagged(skipped) => ConsumedView::Lagged(*skipped as nat),
            Consumed::Closed => ConsumedView::Closed,
            Consumed::Pending => ConsumedView::Pending,
        }
    }
}

/// A bounded channel from one producer to many subscribers.
pub struct Broadcaster {
    capacity: usize,
    window: VecDeque<RelayFrame>,
    published: u64,
    subscribers: usize,
    closed: bool,
    log: Ghost<Seq<RelayFrameView>>,
}

impl View for Broadcaster {
    type V = BroadcasterView;

    closed spec fn view(&self) -> BroadcasterView {
        BroadcasterView {
            capacity: self.capacity as nat,
            log: self.log@,
            subscribers: self.subscribers as nat,
            closed: self.closed,
        }
    }
}

impl Broadcaster {
    /// The invariant of the broadcaster: the window holds the newest frames of
    /// the log, as many as the capacity allows, in the order of the log.
    pub closed spec fn wf(&self) -> bool {
        &&& self.capacity >= 1
        &&& self.published == self.log@.len()
        &&& self.window@.len() == if self.published < self.capacity {
            self.published as int
        } else {
            self.capacity as int
        }
        &&& forall|i: int|
            0 <= i < self.window@.len() ==> (#[trigger] self.window@[i])@ == self.log@[self.published
                - self.window@.len() + i]
    }

    /// What the invariant says of the view: there is room for a frame, and
    /// the counts fit their machine types.
    pub proof fn lemma_wf_bounds(&self)
        requires
            self.wf(),
        ensures
            self@.capacity >= 1,
            self@.capacity <= usize::MAX,
            self@.log.len() <= u64::MAX,
            self@.subscribers <= usize::MAX,
    {
    }

    /// An open broadcaster of the relay's capacity, without frames or
    /// subscribers.
    pub fn new() -> (r: Broadcaster)
        ensures
            r.wf(),
            r@ == (BroadcasterView {
                capacity: CHANNEL_CAPACITY as nat,
                log: Seq::empty(),
                subscribers: 0,
                closed: false,
            }),
    {
        Broadcaster {
            capacity: CHANNEL_CAPACITY,
            window: VecDeque::new(),
            published: 0,
            subscribers: 0,
            closed: false,
            log: Ghost(Seq::empty()),
        }
    }

    /// An open broadcaster that retains `capacity` frames. There is none that
    /// retains no frame.
    pub fn with_capacity(capacity: usize) -> (r: Option<Broadcaster>)
        ensures
            r is Some <==> capacity >= 1,
            r matches Some(b) ==> b.wf() && b@ == (BroadcasterView {
                capacity: capacity as nat,
                log: Seq::empty(),
                subscribers: 0,
                closed: false,
            }),
    {
        if capacity == 0 {
            None
        } else {
            Some(
                Broadcaster {
                    capacity,
                    window: VecDeque::new(),
                    published: 0,
                    subscribers: 0,
                    closed: false,
                    log: Ghost(Seq::empty()),
                },
            )
        }
    }

    /// Number of frames that the broadcaster retains.
    pub fn capacity(&self) -> (r: usize)
        ensures
            r == self@.capacity,
    {
        self.capacity
    }

    /// Number of frames accepted so far.
    pub fn published(&self) -> (r: u64)
        requires
            self.wf(),
        ensures
            r == self@.log.len(),
    {
        self.published
    }

    /// Number of subscriptions that are held at present.
    pub fn subscriber_count(&self) -> (r: usize)
        ensures
            r == self@.subscribers,
    {
        self.subscribers
    }

    /// Whether the producer side is closed.
    pub fn is_closed(&self) -> (r: bool)
        ensures
            r == self@.closed,
    {
        self.closed
    }

    /// Publishes one frame to every subscriber of the moment and returns their
    /// number. Without a subscriber, or once closed, the frame is dropped and
    /// nothing changes. The call never waits for a subscriber: where the
    /// window is full, the oldest frame leaves it.
    pub fn publish(&mut self, frame: RelayFrame) -> (delivered: usize)
        requires
            old(self).wf(),
            old(self)@.log.len() < u64::MAX,
        ensures
            final(self).wf(),
            final(self)@ == old(self)@.publish(frame@),
            delivered == if old(self)@.accepts() {
                old(self)@.subscribers
            } else {
                0
            },
    {
        if self.closed || self.subscribers == 0 {
            return 0;
        }
        if self.window.len() == self.capacity {
            self.window.pop_front();
        }
        proof {
            self.log = Ghost(self.log@.push(frame@));
        }
        self.window.push_back(frame);
        self.published = self.published + 1;
        self.subscribers
    }

    /// Makes a subscription that starts at the next frame to be published:
    /// nothing published before is replayed to it.
    pub fn subscribe(&mut self) -> (sub: Subscription)
        requires
            old(self).wf(),
            old(self)@.subscribers < usize::MAX,
        ensures
            final(self).wf(),
            final(self)@ == old(self)@.subscribe(),
            sub@ == old(self)@.log.len(),
    {
        self.subscribers = self.subscribers + 1;
        Subscription { cursor: self.published }
    }

    /// Gives up a subscription.
    pub fn unsubscribe(&mut self, sub: Subscription)
        requires
            old(self).wf(),
        ensures
            final(self).wf(),
            final(self)@ == old(self)@.unsubscribe(),
    {
        if self.subscribers > 0 {
            self.subscribers = self.subscribers - 1;
        }
    }

    /// Closes the producer side. Each subscription still consumes the frames
    /// that are retained for it, and is then told that the stream has ended.
    pub fn close(&mut self)
        requires
            old(self).wf(),
        ensures
            final(self).wf(),
            final(self)@ == old(self)@.close(),
    {
        self.closed = true;
    }

    /// Number of frames published that the subscription has not consumed,
    /// those that are lost to it included.
    pub fn pending(&self, sub: &Subscription) -> (r: u64)
        requires
            self.wf(),
        ensures
            r == if sub@ <= self@.log.len() {
                self@.log.len() - sub@
            } else {
                0
            },
    {
        if sub.cursor <= self.published {
            self.published - sub.cursor
        } else {
            0
        }
    }

    /// Hands the subscription its next frame, or says why there is none: the
    /// subscription lagged and has been moved up to the oldest retained
    /// frame, the stream has ended, or nothing new was published.
    pub fn consume(&self, sub: &mut Subscription) -> (r: Consumed)
        requires
            self.wf(),
        ensures
            (final(sub)@, r@) == self@.consume(old(sub)@),
    {
        let retained = self.window.len() as u64;
        let oldest = self.published - retained;
        if sub.cursor < oldest {
            let skipped = oldest - sub.cursor;
            sub.cursor = oldest;
            Consumed::Lagged(skipped)
        } else if sub.cursor < self.published {
            let frame = self.window[(sub.cursor - oldest) as usize].clone();
            sub.cursor = sub.cursor + 1;
            Consumed::Frame(frame)
        } else if self.closed {
            Consumed::Closed
        } else {
            Consumed::Pending
        }
    }
}

} // verus!
