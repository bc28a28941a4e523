//! The event queue between the calling thread and the relay worker: first in,
//! first out, unbounded, with a producer side that can be released.
use std::collections::VecDeque;
use vstd::prelude::*;

verus! {

/// A queue item as the contracts see it: destination and payload.
pub type ItemView = (Seq<char>, Seq<char>);

/// One event ready for delivery: the URL to post to and the serialised body.
#[derive(Debug, PartialEq, Eq)]
pub struct QueueItem {
    pub destination: String,
    pub payload: String,
}

impl View for QueueItem {
    type V = ItemView;

    open spec fn view(&self) -> ItemView {
        (self.destination@, self.payload@)
    }
}

impl QueueItem {
    /// A copy of the item.
    pub fn duplicate(&self) -> (r: QueueItem)
        ensures
            r@ == self@,
    {
        QueueItem { destination: self.destination.clone(), payload: self.payload.clone() }
    }
}

/// What the consumer finds when it asks the queue for work.
#[derive(Debug, PartialEq, Eq)]
pub enum Next {
    /// The oldest item, now removed from the queue.
    Item(QueueItem),
    /// Nothing is queued, but the producer may still add items.
    Empty,
    /// Nothing is queued and the producer side has been released.
    Finished,
}

/// The queue of events waiting for the relay worker.
pub struct EventQueue {
    items: VecDeque<QueueItem>,
    open: bool,
    accepted: Ghost<Seq<ItemView>>,
    handed: Ghost<Seq<ItemView>>,
}

impl EventQueue {
    /// The items waiting, oldest first.
    pub closed spec fn pending(&self) -> Seq<ItemView> {
        self.items@.map_values(|i: QueueItem| i@)
    }

    /// Whether the producer side still accepts items.
    pub closed spec fn is_open(&self) -> bool {
        self.open
    }

    /// Every item the queue has accepted, in the order of acceptance.
    pub closed spec fn accepted(&self) -> Seq<ItemView> {
        self.accepted@
    }

    /// Every item handed to the consumer, in the order handed out.
    pub closed spec fn handed(&self) -> Seq<ItemView> {
        self.handed@
    }

    /// What was accepted is what was handed out followed by what waits.
    pub closed spec fn wf(&self) -> bool {
        self.accepted@ == self.handed@ + self.pending()
    }

    /// An empty queue whose producer side is open.
    pub fn new() -> (r: EventQueue)
        ensures
            r.wf(),
            r.is_open(),
            r.pending() == Seq::<ItemView>::empty(),
            r.accepted() == Seq::<ItemView>::empty(),
            r.handed() == Seq::<ItemView>::empty(),
    {
        let r = EventQueue {
            items: VecDeque::new(),
            open: true,
            accepted: Ghost(Seq::empty()),
            handed: Ghost(Seq::empty()),
        };
        assert(r.pending() =~= Seq::<ItemView>::empty());
        r
    }

    /// How many items wait.
    pub fn len(&self) -> (r: usize)
        ensures
            r == self.pending().len(),
    {
        self.items.len()
    }

    /// Whether the producer side still accepts items.
    pub fn accepts(&self) -> (r: bool)
        ensures
            r == self.is_open(),
    {
        self.open
    }

    /// Appends an item, unless the producer side has been released; says
    /// whether it was accepted.
    pub fn push(&mut self, item: QueueItem) -> (r: bool)
        requires
            old(self).wf(),
        ensures
            final(self).wf(),
            r == old(self).is_open(),
            final(self).is_open() == old(self).is_open(),
            final(self).handed() == old(self).handed(),
            r ==> final(self).pending() == old(self).pending().push(item@),
            r ==> final(self).accepted() == old(self).accepted().push(item@),
            !r ==> final(self).pending() == old(self).pending(),
            !r ==> final(self).accepted() == old(self).accepted(),
    {
        if !self.open {
            return false;
        }
        let ghost v = item@;
        self.items.push_back(item);
        self.accepted = Ghost(self.accepted@.push(v));
        assert(self.pending() =~= old(self).pending().push(v));
        assert(self.accepted@ =~= self.handed@ + self.pending());
        true
    }

    /// Releases the producer side: no item is accepted afterwards, and the
    /// items already queued stay to be handed out.
    pub fn close(&mut self)
        requires
            old(self).wf(),
        ensures
            final(self).wf(),
            !final(self).is_open(),
            final(self).pending() == old(self).pending(),
            final(self).accepted() == old(self).accepted(),
            final(self).handed() == old(self).handed(),
    {
        self.open = false;
    }

    /// Removes and returns the oldest item; when there is none, says whether
    /// more may come.
    pub fn take(&mut self) -> (r: Next)
        requires
            old(self).wf(),
        ensures
            final(self).wf(),
            final(self).is_open() == old(self).is_open(),
            final(self).accepted() == old(self).accepted(),
            old(self).pending().len() == 0 ==> {
                &&& final(self).pending() == old(self).pending()
                &&& final(self).handed() == old(self).handed()
                &&& (r is Finished) == !old(self).is_open()
                &&& (r is Empty) == old(self).is_open()
            },
            old(self).pending().len() > 0 ==> {
                &&& r is Item
                &&& r->Item_0@ == old(self).pending()[0]
                &&& final(self).pending() == old(self).pending().drop_first()
                &&& final(self).handed() == old(self).handed().push(old(self).pending()[0])
            },
    {
        match self.items.pop_front() {
            Some(item) => {
                let ghost v = item@;
                self.handed = Ghost(self.handed@.push(v));
                assert(self.pending() =~= old(self).pending().drop_first());
                assert(self.accepted@ =~= self.handed@ + self.pending());
                Next::Item(item)
            },
            None => {
                if self.open {
                    Next::Empty
                } else {
                    Next::Finished
                }
            },
        }
    }
}

/// The two queues hold the same items and history, and agree on whether
/// they accept more.
pub open spec fn same_queue(a: &EventQueue, b: &EventQueue) -> bool {
    &&& a.pending() == b.pending()
    &&& a.accepted() == b.accepted()
    &&& a.handed() == b.handed()
    &&& a.is_open() == b.is_open()
}

/// `after` is `before` with `item` accepted at its end.
pub open spec fn queued(before: &EventQueue, after: &EventQueue, item: ItemView) -> bool {
    &&& after.pending() == before.pending().push(item)
    &&& after.accepted() == before.accepted().push(item)
    &&& after.handed() == before.handed()
    &&& after.is_open() == before.is_open()
}

/// Items leave the queue in the order in which they were accepted: what has
/// been handed out is always the start of what was accepted.
pub proof fn lemma_order_kept(q: &EventQueue)
    requires
        q.wf(),
    ensures
        q.handed().len() <= q.accepted().len(),
        q.handed() == q.accepted().subrange(0, q.handed().len() as int),
{
    assert(q.handed() =~= q.accepted().subrange(0, q.handed().len() as int));
}

/// Once the producer side is released and nothing waits, every accepted item
/// has been handed out exactly once, in order.
pub proof fn lemma_drained(q: &EventQueue)
    requires
        q.wf(),
        !q.is_open(),
        q.pending().len() == 0,
    ensures
        q.handed() == q.accepted(),
{
    assert(q.handed() =~= q.accepted());
}

} // verus!
