//! The forwarding channel: a bounded, ordered, single-consumer queue of
//! string messages.  Producers enqueue at the back; the one consumer drains
//! from the front.  Two ghost logs record every message ever admitted and
//! every message ever drained, so the FIFO discipline can be stated and
//! proved once and for all: the drained log is always a prefix of the
//! admission log.

use vstd::prelude::*;

verus! {

/// Default capacity of the forwarding channel.
pub const FORWARDING_CAPACITY: usize = 32;

/// Outcome of one enqueue attempt.
#[derive(Clone, Copy, PartialEq, Eq, Structural, Debug)]
pub enum SendOutcome {
    /// The message was admitted at the back of the queue.
    Sent,
    /// The queue is at capacity; nothing changed.  The caller is expected
    /// to wait for the consumer to free a slot and try again (backpressure),
    /// never to drop the message on its own.
    Full,
    /// The consuming end is gone; nothing was or will be admitted.
    Closed,
}

/// Outcome of one dequeue attempt.
pub enum RecvOutcome {
    /// The message that stood at the front of the queue.
    Message(String),
    /// The queue is empty but producers remain; the consumer is expected
    /// to wait for the next message.
    Empty,
    /// The queue is empty and the producing end is closed: permanent
    /// shutdown, a normal end, not a fault.
    Finished,
}

/// A bounded FIFO queue of string messages with ghost admission and drain
/// logs.
pub struct Channel {
    items: Vec<String>,
    capacity: usize,
    closed: bool,
    sent_log: Ghost<Seq<Seq<char>>>,
    drained_log: Ghost<Seq<Seq<char>>>,
}

impl Channel {
    /// The messages currently queued, front first.
    pub closed spec fn contents(self) -> Seq<Seq<char>> {
        self.items@.map_values(|m: String| m@)
    }

    /// Every message ever admitted, in admission order.
    pub closed spec fn sent(self) -> Seq<Seq<char>> {
        self.sent_log@
    }

    /// Every message ever drained, in drain order.
    pub closed spec fn drained(self) -> Seq<Seq<char>> {
        self.drained_log@
    }

    /// The bound the channel was created with.
    pub closed spec fn capacity(self) -> nat {
        self.capacity as nat
    }

    /// Whether the producing side has been shut.
    pub closed spec fn is_closed(self) -> bool {
        self.closed
    }

    /// The channel's invariant: the queue never exceeds its bound, and what
    /// was admitted is exactly what was drained followed by what still
    /// waits, in order.
    pub closed spec fn wf(self) -> bool {
        &&& self.capacity >= 1
        &&& self.items@.len() <= self.capacity
        &&& self.sent_log@ == self.drained_log@ + self.contents()
    }

    /// A fresh, open, empty channel.
    pub fn new(capacity: usize) -> (c: Channel)
        requires
            capacity >= 1,
        ensures
            c.wf(),
            c.capacity() == capacity,
            !c.is_closed(),
            c.contents() == Seq::<Seq<char>>::empty(),
            c.sent() == Seq::<Seq<char>>::empty(),
            c.drained() == Seq::<Seq<char>>::empty(),
    {
        let c = Channel {
            items: Vec::new(),
            capacity,
            closed: false,
            sent_log: Ghost(Seq::empty()),
            drained_log: Ghost(Seq::empty()),
        };
        proof {
            assert(c.contents() =~= Seq::<Seq<char>>::empty());
            assert(c.sent_log@ =~= c.drained_log@ + c.contents());
        }
        c
    }

    /// One enqueue attempt.  A closed channel admits nothing; a full one
    /// changes nothing and reports backpressure; otherwise the message is
    /// admitted at the back.
    pub fn try_send(&mut self, m: String) -> (r: SendOutcome)
        requires
            old(self).wf(),
        ensures
            final(self).wf(),
            final(self).capacity() == old(self).capacity(),
            final(self).is_closed() == old(self).is_closed(),
            final(self).drained() == old(self).drained(),
            old(self).is_closed() ==> r == SendOutcome::Closed,
            !old(self).is_closed() && old(self).contents().len() == old(self).capacity()
                ==> r == SendOutcome::Full,
            !old(self).is_closed() && old(self).contents().len() < old(self).capacity()
                ==> r == SendOutcome::Sent,
            r == SendOutcome::Sent ==> {
                &&& final(self).contents() == old(self).contents().push(m@)
                &&& final(self).sent() == old(self).sent().push(m@)
            },
            r != SendOutcome::Sent ==> {
                &&& final(self).contents() == old(self).contents()
                &&& final(self).sent() == old(self).sent()
            },
    {
        if self.closed {
            SendOutcome::Closed
        } else if self.items.len() == self.capacity {
            SendOutcome::Full
        } else {
            let ghost mv = m@;
            self.items.push(m);
            proof {
                self.sent_log@ = self.sent_log@.push(mv);
                assert(self.contents() =~= old(self).contents().push(mv));
                assert(self.sent_log@ =~= self.drained_log@ + self.contents());
            }
            SendOutcome::Sent
        }
    }

    /// One dequeue attempt by the sole consumer.  The front message leaves
    /// first; an empty open channel asks the consumer to wait; an empty
    /// closed channel reports permanent shutdown.
    pub fn recv(&mut self) -> (r: RecvOutcome)
        requires
            old(self).wf(),
        ensures
            final(self).wf(),
            final(self).capacity() == old(self).capacity(),
            final(self).is_closed() == old(self).is_closed(),
            final(self).sent() == old(self).sent(),
            old(self).contents().len() > 0 ==> {
                &&& r matches RecvOutcome::Message(m) && m@ == old(self).contents()[0]
                &&& final(self).contents() == old(self).contents().skip(1)
                &&& final(self).drained() == old(self).drained().push(old(self).contents()[0])
            },
            old(self).contents().len() == 0 ==> {
                &&& final(self).contents() == old(self).contents()
                &&& final(self).drained() == old(self).drained()
                &&& if old(self).is_closed() {
                        r is Finished
                    } else {
                        r is Empty
                    }
            },
    {
        if self.items.len() == 0 {
            if self.closed {
                RecvOutcome::Finished
            } else {
                RecvOutcome::Empty
            }
        } else {
            let m = self.items.remove(0);
            proof {
                self.drained_log@ = self.drained_log@.push(m@);
                assert(self.contents() =~= old(self).contents().skip(1));
                assert(self.sent_log@ =~= self.drained_log@ + self.contents());
            }
            RecvOutcome::Message(m)
        }
    }

    /// Shut the producing side.  Messages already queued stay drainable.
    pub fn close(&mut self)
        requires
            old(self).wf(),
        ensures
            final(self).wf(),
            final(self).is_closed(),
            final(self).capacity() == old(self).capacity(),
            final(self).contents() == old(self).contents(),
            final(self).sent() == old(self).sent(),
            final(self).drained() == old(self).drained(),
    {
        self.closed = true;
    }

    /// How many messages wait in the queue.
    pub fn queued_len(&self) -> (n: usize)
        requires
            self.wf(),
        ensures
            n == self.contents().len(),
    {
        self.items.len()
    }
}

/// FIFO law of the channel: at every reachable state the messages drained
/// so far are exactly the first `drained().len()` messages ever admitted,
/// in admission order.  The consumer therefore observes messages in the
/// exact order their enqueues completed.
pub proof fn lemma_fifo_order(c: Channel)
    requires
        c.wf(),
    ensures
        c.sent() == c.drained() + c.contents(),
        c.drained() == c.sent().take(c.drained().len() as int),
        c.contents() == c.sent().skip(c.drained().len() as int),
{
    assert(c.drained() =~= c.sent().take(c.drained().len() as int));
    assert(c.contents() =~= c.sent().skip(c.drained().len() as int));
}

} // verus!
