//! The relay worker's policy: take queued events in order, post each one,
//! retry once after a stale connection, and otherwise give the item up.
use crate::queue::{lemma_drained, EventQueue, ItemView, Next, QueueItem};
use vstd::prelude::*;

verus! {

/// How one post of an event ended.
#[derive(Clone, Copy, PartialEq, Eq, Structural, Debug)]
pub enum Delivery {
    /// The transport reported success.
    Delivered,
    /// The connection was stale (aborted or reset after idling), so the
    /// payload never reached the server.
    StaleConnection,
    /// Any other transport failure.
    Failed,
}

/// What becomes of the item after a post.
#[derive(Clone, Copy, PartialEq, Eq, Structural, Debug)]
pub enum Verdict {
    /// It was delivered; the worker moves on.
    Delivered,
    /// Post it once more, now.
    Retry,
    /// It is given up; the worker moves on.
    Dropped,
}

/// What the worker does next.
#[derive(Debug, PartialEq, Eq)]
pub enum RelayAction {
    /// Post this item, then report how it went.
    Post(QueueItem),
    /// Nothing is queued yet: wait for the producer.
    Wait,
    /// Nothing is queued and no more will come: the worker ends.
    Stop,
}

/// The state of the relay worker: whether an item is in flight and whether it
/// has had its retry, with a record of every post it asked for.
pub struct Relay {
    busy: bool,
    retried: bool,
    current: Ghost<ItemView>,
    posts: Ghost<Seq<ItemView>>,
    retries: Ghost<nat>,
}

impl Relay {
    /// Whether an item is in flight, awaiting a report.
    pub closed spec fn busy(&self) -> bool {
        self.busy
    }

    /// Whether the item in flight has already been retried.
    pub closed spec fn retried(&self) -> bool {
        self.retried
    }

    /// The item in flight.
    pub closed spec fn current(&self) -> ItemView {
        self.current@
    }

    /// Every post asked for so far, in order.
    pub closed spec fn posted(&self) -> Seq<ItemView> {
        self.posts@
    }

    /// How many of those posts were retries.
    pub closed spec fn retries(&self) -> nat {
        self.retries@
    }

    /// The relay is the consumer of `q`: each item handed out was posted once,
    /// and once more for each retry.
    pub closed spec fn tracks(&self, q: &EventQueue) -> bool {
        &&& self.posts@.len() == q.handed().len() + self.retries@
        &&& self.retries@ == 0 ==> self.posts@ == q.handed()
        &&& self.busy ==> q.handed().len() > 0 && self.current@ == q.handed().last()
    }

    /// An idle relay that has posted nothing.
    pub fn new() -> (r: Relay)
        ensures
            !r.busy(),
            r.posted() == Seq::<ItemView>::empty(),
            r.retries() == 0,
            forall|q: &EventQueue| q.handed().len() == 0 ==> r.tracks(q),
    {
        let r = Relay {
            busy: false,
            retried: false,
            current: Ghost(arbitrary()),
            posts: Ghost(Seq::empty()),
            retries: Ghost(0),
        };
        assert forall|q: &EventQueue| q.handed().len() == 0 implies r.tracks(q) by {
            assert(q.handed() =~= Seq::<ItemView>::empty());
        }
        r
    }

    /// Asks the queue for the next item: post it, wait for one, or stop.
    pub fn next(&mut self, queue: &mut EventQueue) -> (r: RelayAction)
        requires
            !old(self).busy(),
            old(queue).wf(),
            old(self).tracks(old(queue)),
        ensures
            final(queue).wf(),
            final(self).tracks(final(queue)),
            final(self).retries() == old(self).retries(),
            final(queue).accepted() == old(queue).accepted(),
            final(queue).is_open() == old(queue).is_open(),
            old(queue).pending().len() == 0 ==> {
                &&& (r is Stop) == !old(queue).is_open()
                &&& (r is Wait) == old(queue).is_open()
                &&& *final(self) == *old(self)
                &&& final(queue).pending() == old(queue).pending()
                &&& final(queue).handed() == old(queue).handed()
            },
            old(queue).pending().len() > 0 ==> {
                &&& r is Post
                &&& r->Post_0@ == old(queue).pending()[0]
                &&& final(self).busy()
                &&& !final(self).retried()
                &&& final(self).current() == r->Post_0@
                &&& final(self).posted() == old(self).posted().push(r->Post_0@)
                &&& final(queue).pending() == old(queue).pending().drop_first()
                &&& final(queue).handed() == old(queue).handed().push(r->Post_0@)
            },
    {
        match queue.take() {
            Next::Item(item) => {
                let ghost v = item@;
                self.busy = true;
                self.retried = false;
                self.current = Ghost(v);
                self.posts = Ghost(self.posts@.push(v));
                RelayAction::Post(item)
            },
            Next::Empty => RelayAction::Wait,
            Next::Finished => RelayAction::Stop,
        }
    }

    /// Records how the post of the item in flight ended and decides what
    /// becomes of it: a stale connection earns one immediate retry; any other
    /// failure, or a second one, drops the item.
    pub fn report(&mut self, outcome: Delivery) -> (r: Verdict)
        requires
            old(self).busy(),
        ensures
            forall|q: &EventQueue| #[trigger] old(self).tracks(q) ==> final(self).tracks(q),
            final(self).current() == old(self).current(),
            r == (match outcome {
                Delivery::Delivered => Verdict::Delivered,
                Delivery::StaleConnection => if old(self).retried() {
                    Verdict::Dropped
                } else {
                    Verdict::Retry
                },
                Delivery::Failed => Verdict::Dropped,
            }),
            r is Retry ==> {
                &&& final(self).busy()
                &&& final(self).retried()
                &&& final(self).posted() == old(self).posted().push(old(self).current())
                &&& final(self).retries() == old(self).retries() + 1
            },
            !(r is Retry) ==> {
                &&& !final(self).busy()
                &&& final(self).posted() == old(self).posted()
                &&& final(self).retries() == old(self).retries()
            },
    {
        match outcome {
            Delivery::Delivered => {
                self.busy = false;
                Verdict::Delivered
            },
            Delivery::StaleConnection => {
                if self.retried {
                    self.busy = false;
                    Verdict::Dropped
                } else {
                    self.retried = true;
                    self.posts = Ghost(self.posts@.push(self.current@));
                    self.retries = Ghost(self.retries@ + 1);
                    Verdict::Retry
                }
            },
            Delivery::Failed => {
                self.busy = false;
                Verdict::Dropped
            },
        }
    }
}

/// Once the producer side is released, the queue is empty and the relay is
/// idle, the relay has asked for one post per accepted event plus one per
/// retry; with no retry, exactly the accepted events, in order.
pub proof fn lemma_drain_posts(relay: &Relay, q: &EventQueue)
    requires
        q.wf(),
        relay.tracks(q),
        !q.is_open(),
        q.pending().len() == 0,
        !relay.busy(),
    ensures
        relay.posted().len() == q.accepted().len() + relay.retries(),
        relay.retries() == 0 ==> relay.posted() == q.accepted(),
{
    lemma_drained(q);
}

} // verus!
