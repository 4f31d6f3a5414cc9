//! Forwarders: the relays that drain a channel towards an observer.
//!
//! A forwarder decides, an outside loop acts: the loop polls the forwarder,
//! delivers what it is handed, and reports a delivery that failed. A
//! forwarder is `Active` until its channel is closed or a delivery fails;
//! `Closed` and `Failed` are final.

use crate::channel::{Channel, ChannelState, Received};
use vstd::prelude::*;

verus! {

/// The state of a forwarder.
#[derive(Clone, Copy, Debug, PartialEq, Eq, Structural)]
pub enum ForwarderState {
    /// The forwarder drains its channel.
    Active,
    /// The channel was closed; the forwarder has stopped.
    Closed,
    /// A delivery failed; the forwarder has stopped.
    Failed,
}

/// The failure of a delivery: the observer could not be reached.
#[derive(Clone, Copy, Debug, PartialEq, Eq, Structural)]
pub struct DeliveryError;

/// What a forwarder asks its loop to do next.
#[derive(Debug, PartialEq, Eq)]
pub enum Forward<T> {
    /// Deliver this item to the observer.
    Deliver(T),
    /// Nothing waits in the channel: suspend until something may have come.
    Idle,
    /// The forwarder has stopped: end the loop.
    Stop,
}

/// One poll of a forwarder in state `state` on a channel: the state and the
/// channel after it, and what the loop is to do.
pub open spec fn polled<T>(state: ForwarderState, channel: ChannelState<T>) -> (
    ForwarderState,
    ChannelState<T>,
    Forward<T>,
) {
    if state != ForwarderState::Active {
        (state, channel, Forward::Stop)
    } else {
        match channel.received().1 {
            Received::Item(item) => (ForwarderState::Active, channel.received().0, Forward::Deliver(item)),
            Received::Empty => (ForwarderState::Active, channel, Forward::Idle),
            Received::Closed => (ForwarderState::Closed, channel, Forward::Stop),
        }
    }
}

/// The state of a forwarder after the report on a delivery: a failure stops
/// an active forwarder for good.
pub open spec fn after_delivery(state: ForwarderState, delivered: bool) -> ForwarderState {
    if state == ForwarderState::Active && !delivered {
        ForwarderState::Failed
    } else {
        state
    }
}

/// A relay from one channel to one observer.
pub struct Forwarder {
    state: ForwarderState,
}

impl View for Forwarder {
    type V = ForwarderState;

    closed spec fn view(&self) -> ForwarderState {
        self.state
    }
}

impl Forwarder {
    /// An active forwarder.
    pub fn new() -> (forwarder: Forwarder)
        ensures
            forwarder@ == ForwarderState::Active,
    {
        Forwarder { state: ForwarderState::Active }
    }

    /// The state of the forwarder.
    pub fn state(&self) -> (state: ForwarderState)
        ensures
            state == self@,
    {
        self.state
    }

    /// Takes the next item out of `channel`, if the forwarder is active and
    /// one waits. An active forwarder that finds the channel closed stops.
    /// A forwarder that has stopped leaves the channel alone.
    pub fn poll<T>(&mut self, channel: &mut Channel<T>) -> (next: Forward<T>)
        ensures
            (final(self)@, final(channel)@, next) == polled(old(self)@, old(channel)@),
    {
        match self.state {
            ForwarderState::Active => match channel.recv() {
                Received::Item(item) => Forward::Deliver(item),
                Received::Empty => Forward::Idle,
                Received::Closed => {
                    self.state = ForwarderState::Closed;
                    Forward::Stop
                },
            },
            _ => Forward::Stop,
        }
    }

    /// Takes note of how the last delivery went. A failed delivery stops the
    /// forwarder: the observer is taken to be gone, and nothing is retried.
    pub fn delivered(&mut self, outcome: Result<(), DeliveryError>)
        ensures
            final(self)@ == after_delivery(old(self)@, outcome is Ok),
    {
        match (self.state, outcome) {
            (ForwarderState::Active, Err(_)) => {
                self.state = ForwarderState::Failed;
            },
            _ => {},
        }
    }
}

/// What can happen on a channel and the forwarder that drains it.
pub enum StreamOp<T> {
    /// The producer pushes an item.
    Push(T),
    /// The forwarder's loop polls the forwarder.
    Poll,
    /// The forwarder's loop reports a delivery that failed.
    DeliveryFailed,
    /// The channel is closed.
    Close,
}

/// A channel and its forwarder, together with what has gone through them:
/// the items that the channel accepted and the items that the forwarder
/// handed out for delivery, each in the order in which it happened.
pub struct Stream<T> {
    pub channel: ChannelState<T>,
    pub forwarder: ForwarderState,
    pub accepted: Seq<T>,
    pub handed_out: Seq<T>,
}

impl<T> Stream<T> {
    /// A stream that starts from `channel` and `forwarder`, through which
    /// nothing has gone yet.
    pub open spec fn starting(channel: ChannelState<T>, forwarder: ForwarderState) -> Stream<T> {
        Stream { channel, forwarder, accepted: Seq::empty(), handed_out: Seq::empty() }
    }

    /// The stream after `op`.
    pub open spec fn advance(self, op: StreamOp<T>) -> Stream<T> {
        match op {
            StreamOp::Push(item) => Stream {
                channel: self.channel.pushed(item),
                accepted: if self.channel.closed {
                    self.accepted
                } else {
                    self.accepted.push(item)
                },
                ..self
            },
            StreamOp::Poll => {
                let (forwarder, channel, next) = polled(self.forwarder, self.channel);
                Stream {
                    channel,
                    forwarder,
                    handed_out: match next {
                        Forward::Deliver(item) => self.handed_out.push(item),
                        _ => self.handed_out,
                    },
                    ..self
                }
            },
            StreamOp::DeliveryFailed => Stream {
                forwarder: after_delivery(self.forwarder, false),
                ..self
            },
            StreamOp::Close => Stream { channel: self.channel.shut(), ..self },
        }
    }

    /// The stream after all of `ops`, taken in order.
    pub open spec fn play(self, ops: Seq<StreamOp<T>>) -> Stream<T>
        decreases ops.len(),
    {
        if ops.len() == 0 {
            self
        } else {
            self.play(ops.drop_last()).advance(ops.last())
        }
    }
}

/// Items come out in the order in which they went in, with no gaps.
///
/// Whatever happens on a stream, what the forwarder has handed out is the
/// beginning of what was waiting at the outset followed by what the channel
/// accepted since. As long as the channel is open nothing is lost either:
/// what was handed out, followed by what waits in the channel, is all of it.
pub proof fn lemma_in_order_without_gaps<T>(
    channel: ChannelState<T>,
    forwarder: ForwarderState,
    ops: Seq<StreamOp<T>>,
)
    ensures
        ({
            let end = Stream::starting(channel, forwarder).play(ops);
            let all = channel.queue + end.accepted;
            &&& end.handed_out.is_prefix_of(all)
            &&& !end.channel.closed ==> end.handed_out + end.channel.queue == all
        }),
    decreases ops.len(),
{
    let start = Stream::starting(channel, forwarder);
    if ops.len() == 0 {
        assert(start.handed_out + channel.queue =~= channel.queue + start.accepted);
    } else {
        lemma_in_order_without_gaps(channel, forwarder, ops.drop_last());
        let before = start.play(ops.drop_last());
        let end = before.advance(ops.last());
        let all_before = channel.queue + before.accepted;
        let all = channel.queue + end.accepted;
        if !before.channel.closed {
            match ops.last() {
                StreamOp::Push(item) => {
                    assert(all =~= all_before.push(item));
                    assert(end.handed_out + end.channel.queue =~= all);
                },
                StreamOp::Poll => {
                    assert(end.handed_out + end.channel.queue =~= all);
                },
                _ => {},
            }
        }
    }
}

/// `Closed` and `Failed` are final, and so is the closing of a channel: a
/// closed channel stays closed and a stopped forwarder stays in the state in
/// which it stopped, whatever happens.
pub proof fn lemma_closed_and_stopped_stay<T>(stream: Stream<T>, ops: Seq<StreamOp<T>>)
    ensures
        stream.channel.closed ==> stream.play(ops).channel.closed,
        stream.forwarder != ForwarderState::Active ==> stream.play(ops).forwarder
            == stream.forwarder,
    decreases ops.len(),
{
    if ops.len() > 0 {
        lemma_closed_and_stopped_stay(stream, ops.drop_last());
    }
}

/// The end of the stream ends the forwarding.
///
/// A poll on a closed channel hands nothing out, and it stops an active
/// forwarder in the state `Closed`. Whatever happens on a stream after its
/// channel was closed, nothing more is accepted and nothing more is handed
/// out for delivery.
pub proof fn lemma_nothing_after_close<T>(stream: Stream<T>, ops: Seq<StreamOp<T>>)
    requires
        stream.channel.closed,
    ensures
        polled(stream.forwarder, stream.channel).2 == Forward::<T>::Stop,
        polled(stream.forwarder, stream.channel).0 != ForwarderState::Active,
        stream.forwarder == ForwarderState::Active ==> polled(stream.forwarder, stream.channel).0
            == ForwarderState::Closed,
        stream.play(ops).channel.closed,
        stream.play(ops).accepted == stream.accepted,
        stream.play(ops).handed_out == stream.handed_out,
    decreases ops.len(),
{
    if ops.len() > 0 {
        lemma_nothing_after_close(stream, ops.drop_last());
    }
}

} // verus!
