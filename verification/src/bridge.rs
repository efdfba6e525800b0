//! The bridge: the forwarding channel, the forwarder's drain loop, and the
//! notification sink registry, as one state machine.  The registry holds at
//! most one sink handle, installed once at startup; the forwarder drains the
//! channel and hands each message to the sink under a fixed event name.  A
//! message drained while no sink is installed is dropped, never queued and
//! never replayed: a ghost drain log records every drained message together
//! with whether it reached the sink, so that loss is a proved fact, not a
//! hope.

use crate::channel::{Channel, RecvOutcome, SendOutcome};
use vstd::prelude::*;

verus! {

/// The event name under which every forwarded message reaches the sink.
pub open spec fn axum_event_name() -> Seq<char> {
    "axum_event"@
}

/// Why an emission attempt failed.  Neither failure is fatal: the message
/// is logged and dropped, and the forwarder moves on to the next one.
#[derive(Clone, Copy, PartialEq, Eq, Structural, Debug)]
pub enum EmitError {
    /// No sink handle has been installed yet.
    NotInstalled,
    /// The installed handle rejected the emission.
    SinkRejected,
}

/// Whether an emission failure may terminate the forwarder.  It never may:
/// the bridge favours its own availability over the delivery of any single
/// message.
pub fn emit_failure_is_fatal(e: &EmitError) -> (fatal: bool)
    ensures
        !fatal,
{
    match e {
        EmitError::NotInstalled => false,
        EmitError::SinkRejected => false,
    }
}

/// What the forwarder does with the outcome of one channel receive, given
/// whether a sink handle is installed at that moment.
pub enum ForwarderAction {
    /// Hand the payload to the sink under the given event name.
    Emit(String, String),
    /// No sink is installed: drop the message and continue the loop.
    DropMessage,
    /// The channel is finished: exit the loop cleanly.
    Stop,
}

/// The forwarder's sole decision: a received message goes to the sink under
/// the bridge's event name when a sink is installed, is dropped otherwise,
/// and a closed channel ends the loop.
pub fn forwarder_step(received: Option<String>, sink_installed: bool) -> (a: ForwarderAction)
    ensures
        sink_installed ==> (received matches Some(m) ==> (a matches ForwarderAction::Emit(
            e,
            p,
        ) && e@ == axum_event_name() && p == m)),
        !sink_installed ==> (received matches Some(m) ==> a is DropMessage),
        received is None <==> a is Stop,
{
    match received {
        Some(m) => {
            if sink_installed {
                ForwarderAction::Emit("axum_event".to_owned(), m)
            } else {
                ForwarderAction::DropMessage
            }
        },
        None => ForwarderAction::Stop,
    }
}

/// The drained messages of a drain log, in drain order.
pub open spec fn drained_messages(log: Seq<(Seq<char>, bool)>) -> Seq<Seq<char>> {
    log.map_values(|p: (Seq<char>, bool)| p.0)
}

/// The messages of a drain log that reached the sink, in drain order.
pub open spec fn emitted_of(log: Seq<(Seq<char>, bool)>) -> Seq<Seq<char>>
    decreases log.len(),
{
    if log.len() == 0 {
        Seq::empty()
    } else {
        let rest = emitted_of(log.drop_last());
        if log.last().1 {
            rest.push(log.last().0)
        } else {
            rest
        }
    }
}

/// The messages of a drain log that were dropped for want of a sink, in
/// drain order.
pub open spec fn lost_of(log: Seq<(Seq<char>, bool)>) -> Seq<Seq<char>>
    decreases log.len(),
{
    if log.len() == 0 {
        Seq::empty()
    } else {
        let rest = lost_of(log.drop_last());
        if log.last().1 {
            rest
        } else {
            rest.push(log.last().0)
        }
    }
}

/// The views of a vector of messages.
pub open spec fn message_views(v: Seq<String>) -> Seq<Seq<char>> {
    v.map_values(|m: String| m@)
}

/// What one drain step did.
pub enum DrainOutcome {
    /// The front message was handed to the sink.
    Forwarded(String),
    /// The front message was drained with no sink installed and is lost.
    DroppedNoSink(String),
    /// The channel is empty but open: the forwarder waits.
    Idle,
    /// The channel is empty and closed: the forwarder exits cleanly.
    Finished,
}

/// The whole pipeline: bounded channel, sink registry, and the record of
/// every message the sink has received.
pub struct Bridge {
    channel: Channel,
    sink_installed: bool,
    emitted: Vec<String>,
    log: Ghost<Seq<(Seq<char>, bool)>>,
}

impl Bridge {
    /// Messages waiting in the channel, front first.
    pub closed spec fn queued(self) -> Seq<Seq<char>> {
        self.channel.contents()
    }

    /// Every message ever admitted to the channel, in admission order.
    pub closed spec fn sent(self) -> Seq<Seq<char>> {
        self.channel.sent()
    }

    /// The channel's capacity bound.
    pub closed spec fn capacity(self) -> nat {
        self.channel.capacity()
    }

    /// Whether the producing side of the channel has been shut.
    pub closed spec fn is_closed(self) -> bool {
        self.channel.is_closed()
    }

    /// Whether a sink handle is installed.
    pub closed spec fn sink_installed(self) -> bool {
        self.sink_installed
    }

    /// Every drained message, in drain order, each marked with whether it
    /// reached the sink.
    pub closed spec fn drain_log(self) -> Seq<(Seq<char>, bool)> {
        self.log@
    }

    /// Everything the sink has received, in order.
    pub open spec fn emitted(self) -> Seq<Seq<char>> {
        emitted_of(self.drain_log())
    }

    /// Every message dropped for want of a sink, in order.
    pub open spec fn lost(self) -> Seq<Seq<char>> {
        lost_of(self.drain_log())
    }

    /// The bridge's invariant: the channel is well formed, the drain log
    /// mirrors the channel's drain history, and the record of emissions is
    /// exactly the forwarded part of the log.
    pub closed spec fn wf(self) -> bool {
        &&& self.channel.wf()
        &&& drained_messages(self.log@) == self.channel.drained()
        &&& message_views(self.emitted@) == emitted_of(self.log@)
    }

    /// A fresh bridge: empty open channel, no sink, nothing drained.
    pub fn new(capacity: usize) -> (b: Bridge)
        requires
            capacity >= 1,
        ensures
            b.wf(),
            b.capacity() == capacity,
            !b.is_closed(),
            !b.sink_installed(),
            b.queued() == Seq::<Seq<char>>::empty(),
            b.sent() == Seq::<Seq<char>>::empty(),
            b.drain_log() == Seq::<(Seq<char>, bool)>::empty(),
    {
        let b = Bridge {
            channel: Channel::new(capacity),
            sink_installed: false,
            emitted: Vec::new(),
            log: Ghost(Seq::empty()),
        };
        proof {
            assert(drained_messages(b.log@) =~= b.channel.drained());
            assert(message_views(b.emitted@) =~= emitted_of(b.log@));
        }
        b
    }

    /// Install the sink handle.  Installation overwrites any prior handle,
    /// replays nothing, and touches neither the queue nor the drain record.
    pub fn install_sink(&mut self)
        requires
            old(self).wf(),
        ensures
            final(self).wf(),
            final(self).sink_installed(),
            final(self).capacity() == old(self).capacity(),
            final(self).is_closed() == old(self).is_closed(),
            final(self).queued() == old(self).queued(),
            final(self).sent() == old(self).sent(),
            final(self).drain_log() == old(self).drain_log(),
    {
        self.sink_installed = true;
    }

    /// Enqueue one message, with the channel's backpressure discipline.
    pub fn send(&mut self, m: String) -> (r: SendOutcome)
        requires
            old(self).wf(),
        ensures
            final(self).wf(),
            final(self).capacity() == old(self).capacity(),
            final(self).is_closed() == old(self).is_closed(),
            final(self).sink_installed() == old(self).sink_installed(),
            final(self).drain_log() == old(self).drain_log(),
            old(self).is_closed() ==> r == SendOutcome::Closed,
            !old(self).is_closed() && old(self).queued().len() == old(self).capacity() ==> r
                == SendOutcome::Full,
            !old(self).is_closed() && old(self).queued().len() < old(self).capacity() ==> r
                == SendOutcome::Sent,
            r == SendOutcome::Sent ==> {
                &&& final(self).queued() == old(self).queued().push(m@)
                &&& final(self).sent() == old(self).sent().push(m@)
            },
            r != SendOutcome::Sent ==> {
                &&& final(self).queued() == old(self).queued()
                &&& final(self).sent() == old(self).sent()
            },
    {
        self.channel.try_send(m)
    }

    /// One forwarder step: drain the front message if there is one, and
    /// hand it to the sink exactly when a sink is installed.
    pub fn drain_one(&mut self) -> (r: DrainOutcome)
        requires
            old(self).wf(),
        ensures
            final(self).wf(),
            final(self).capacity() == old(self).capacity(),
            final(self).is_closed() == old(self).is_closed(),
            final(self).sink_installed() == old(self).sink_installed(),
            final(self).sent() == old(self).sent(),
            old(self).queued().len() > 0 && old(self).sink_installed() ==> {
                &&& r matches DrainOutcome::Forwarded(m) && m@ == old(self).queued()[0]
                &&& final(self).drain_log() == old(self).drain_log().push(
                    (old(self).queued()[0], true),
                )
                &&& final(self).emitted() == old(self).emitted().push(old(self).queued()[0])
                &&& final(self).queued() == old(self).queued().skip(1)
            },
            old(self).queued().len() > 0 && !old(self).sink_installed() ==> {
                &&& r matches DrainOutcome::DroppedNoSink(m) && m@ == old(self).queued()[0]
                &&& final(self).drain_log() == old(self).drain_log().push(
                    (old(self).queued()[0], false),
                )
                &&& final(self).emitted() == old(self).emitted()
                &&& final(self).lost() == old(self).lost().push(old(self).queued()[0])
                &&& final(self).queued() == old(self).queued().skip(1)
            },
            old(self).queued().len() == 0 ==> {
                &&& final(self).drain_log() == old(self).drain_log()
                &&& final(self).queued() == old(self).queued()
                &&& if old(self).is_closed() {
                    r is Finished
                } else {
                    r is Idle
                }
            },
    {
        match self.channel.recv() {
            RecvOutcome::Message(m) => {
                let ghost mv = m@;
                if self.sink_installed {
                    let copy = m.clone();
                    self.emitted.push(copy);
                    proof {
                        self.log@ = self.log@.push((mv, true));
                        lemma_log_push(old(self).log@, mv, true);
                        assert(drained_messages(self.log@) =~= drained_messages(
                            old(self).log@,
                        ).push(mv));
                        assert(message_views(self.emitted@) =~= message_views(
                            old(self).emitted@,
                        ).push(mv));
                    }
                    DrainOutcome::Forwarded(m)
                } else {
                    proof {
                        self.log@ = self.log@.push((mv, false));
                        lemma_log_push(old(self).log@, mv, false);
                        assert(drained_messages(self.log@) =~= drained_messages(
                            old(self).log@,
                        ).push(mv));
                    }
                    DrainOutcome::DroppedNoSink(m)
                }
            },
            RecvOutcome::Empty => DrainOutcome::Idle,
            RecvOutcome::Finished => DrainOutcome::Finished,
        }
    }

    /// Shut the producing side of the channel.
    pub fn close_producers(&mut self)
        requires
            old(self).wf(),
        ensures
            final(self).wf(),
            final(self).is_closed(),
            final(self).capacity() == old(self).capacity(),
            final(self).sink_installed() == old(self).sink_installed(),
            final(self).queued() == old(self).queued(),
            final(self).sent() == old(self).sent(),
            final(self).drain_log() == old(self).drain_log(),
    {
        self.channel.close()
    }

    /// Everything the sink has received so far, in order.
    pub fn emitted_so_far(&self) -> (v: &Vec<String>)
        requires
            self.wf(),
        ensures
            message_views(v@) == self.emitted(),
    {
        &self.emitted
    }

    /// Whether a sink handle is installed.
    pub fn has_sink(&self) -> (b: bool)
        ensures
            b == self.sink_installed(),
    {
        self.sink_installed
    }

    /// How many messages wait in the channel.
    pub fn queued_len(&self) -> (n: usize)
        requires
            self.wf(),
        ensures
            n == self.queued().len(),
    {
        self.channel.queued_len()
    }
}

/// Appending one entry to a drain log extends its projections pointwise.
proof fn lemma_log_push(log: Seq<(Seq<char>, bool)>, m: Seq<char>, f: bool)
    ensures
        drained_messages(log.push((m, f))) == drained_messages(log).push(m),
        emitted_of(log.push((m, f))) == if f {
            emitted_of(log).push(m)
        } else {
            emitted_of(log)
        },
        lost_of(log.push((m, f))) == if f {
            lost_of(log)
        } else {
            lost_of(log).push(m)
        },
{
    assert(log.push((m, f)).drop_last() =~= log);
    assert(drained_messages(log.push((m, f))) =~= drained_messages(log).push(m));
}

/// A drain log none of whose entries were forwarded contributed nothing to
/// the sink.
proof fn lemma_all_unforwarded_emit_nothing(log: Seq<(Seq<char>, bool)>)
    requires
        forall|i: int| 0 <= i < log.len() ==> !(#[trigger] log[i]).1,
    ensures
        emitted_of(log) == Seq::<Seq<char>>::empty(),
    decreases log.len(),
{
    if log.len() > 0 {
        lemma_all_unforwarded_emit_nothing(log.drop_last());
    }
}

/// FIFO law of the bridge: what was admitted is exactly what was drained,
/// in drain order, followed by what still waits; so the forwarder observes
/// messages in the exact order their enqueues completed.
pub proof fn lemma_bridge_fifo(b: Bridge)
    requires
        b.wf(),
    ensures
        b.sent() == drained_messages(b.drain_log()) + b.queued(),
        drained_messages(b.drain_log()) == b.sent().take(b.drain_log().len() as int),
        b.queued() == b.sent().skip(b.drain_log().len() as int),
{
    crate::channel::lemma_fifo_order(b.channel);
    assert(drained_messages(b.drain_log()).len() == b.drain_log().len());
}

/// Delivery law of the bridge: if a sink was installed for every drain so
/// far, the sink has received exactly the drained messages, verbatim and in
/// drain order — which, by the FIFO law, is the admission order.
pub proof fn lemma_installed_throughout_delivers_in_order(b: Bridge)
    requires
        b.wf(),
        forall|i: int| 0 <= i < b.drain_log().len() ==> (#[trigger] b.drain_log()[i]).1,
    ensures
        b.emitted() == drained_messages(b.drain_log()),
        b.emitted() == b.sent().take(b.drain_log().len() as int),
{
    lemma_all_forwarded_emit_everything(b.drain_log());
    lemma_bridge_fifo(b);
}

/// The emitted projection of an all-forwarded drain log is the whole log.
proof fn lemma_all_forwarded_emit_everything(log: Seq<(Seq<char>, bool)>)
    requires
        forall|i: int| 0 <= i < log.len() ==> (#[trigger] log[i]).1,
    ensures
        emitted_of(log) == drained_messages(log),
    decreases log.len(),
{
    if log.len() == 0 {
        assert(emitted_of(log) =~= drained_messages(log));
    } else {
        lemma_all_forwarded_emit_everything(log.drop_last());
        lemma_log_push(log.drop_last(), log.last().0, log.last().1);
        assert(log.drop_last().push(log.last()) =~= log);
    }
}

/// Loss law of the bridge: if the first `n` drains all happened before a
/// sink was installed, those `n` messages are permanently lost — everything
/// the sink ever receives comes from the later drains alone, and nothing is
/// ever replayed.
pub proof fn lemma_messages_before_install_are_lost(b: Bridge, n: int)
    requires
        b.wf(),
        0 <= n <= b.drain_log().len(),
        forall|i: int| 0 <= i < n ==> !(#[trigger] b.drain_log()[i]).1,
    ensures
        b.emitted() == emitted_of(b.drain_log().skip(n)),
{
    lemma_emitted_skips_unforwarded_prefix(b.drain_log(), n);
}

/// The emitted projection of a drain log ignores an unforwarded prefix.
proof fn lemma_emitted_skips_unforwarded_prefix(log: Seq<(Seq<char>, bool)>, n: int)
    requires
        0 <= n <= log.len(),
        forall|i: int| 0 <= i < n ==> !(#[trigger] log[i]).1,
    ensures
        emitted_of(log) == emitted_of(log.skip(n)),
    decreases log.len(),
{
    if log.len() == n {
        lemma_all_unforwarded_emit_nothing(log);
        assert(log.skip(n) =~= Seq::<(Seq<char>, bool)>::empty());
    } else {
        let shorter = log.drop_last();
        lemma_emitted_skips_unforwarded_prefix(shorter, n);
        assert(log.skip(n).drop_last() =~= shorter.skip(n));
        assert(log.skip(n).last() == log.last());
        assert(log.skip(n).len() > 0);
    }
}

} // verus!
