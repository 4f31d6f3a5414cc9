//! Event channels: unbounded queues that hand their items out in the order
//! in which they were put in.

use std::collections::VecDeque;
use vstd::prelude::*;

verus! {

/// What a channel holds: the items that were pushed and not yet received,
/// oldest first, and whether the channel was closed.
pub struct ChannelState<T> {
    pub queue: Seq<T>,
    pub closed: bool,
}

/// What a receiver gets from a channel.
#[derive(Debug, PartialEq, Eq)]
pub enum Received<T> {
    /// The oldest item that was waiting.
    Item(T),
    /// Nothing is waiting; the channel is open and more may come.
    Empty,
    /// The channel was closed: the stream has ended.
    Closed,
}

impl<T> ChannelState<T> {
    /// An open channel in which nothing waits.
    pub open spec fn fresh() -> ChannelState<T> {
        ChannelState { queue: Seq::empty(), closed: false }
    }

    /// The channel after a push of `item`: an open channel takes the item at
    /// its end, a closed one takes nothing.
    pub open spec fn pushed(self, item: T) -> ChannelState<T> {
        if self.closed {
            self
        } else {
            ChannelState { queue: self.queue.push(item), closed: false }
        }
    }

    /// The channel after one receive, and what the receiver got: the end of
    /// the stream from a closed channel, else the oldest item if one waits.
    pub open spec fn received(self) -> (ChannelState<T>, Received<T>) {
        if self.closed {
            (self, Received::Closed)
        } else if self.queue.len() == 0 {
            (self, Received::Empty)
        } else {
            (
                ChannelState { queue: self.queue.drop_first(), closed: false },
                Received::Item(self.queue[0]),
            )
        }
    }

    /// The channel after it was closed. What was still waiting is dropped.
    pub open spec fn shut(self) -> ChannelState<T> {
        ChannelState { queue: Seq::empty(), closed: true }
    }
}

/// An unbounded channel for events of one kind.
///
/// A producer pushes items, a consumer receives them, in the order pushed.
/// While the channel is open no item is dropped. Closing the channel ends
/// the stream: from then on nothing is accepted and nothing is handed out.
pub struct Channel<T> {
    queue: VecDeque<T>,
    closed: bool,
}

impl<T> View for Channel<T> {
    type V = ChannelState<T>;

    closed spec fn view(&self) -> ChannelState<T> {
        ChannelState { queue: self.queue@, closed: self.closed }
    }
}

impl<T> Channel<T> {
    /// An open channel in which nothing waits.
    pub fn new() -> (channel: Channel<T>)
        ensures
            channel@ == ChannelState::<T>::fresh(),
    {
        Channel { queue: VecDeque::new(), closed: false }
    }

    /// Puts `item` at the end of the channel. A closed channel accepts
    /// nothing and hands the item back.
    pub fn push(&mut self, item: T) -> (rejected: Option<T>)
        ensures
            final(self)@ == old(self)@.pushed(item),
            rejected == if old(self)@.closed {
                Some(item)
            } else {
                None
            },
    {
        if self.closed {
            Some(item)
        } else {
            self.queue.push_back(item);
            None
        }
    }

    /// Takes the oldest waiting item out of the channel.
    pub fn recv(&mut self) -> (got: Received<T>)
        ensures
            (final(self)@, got) == old(self)@.received(),
    {
        if self.closed {
            Received::Closed
        } else {
            match self.queue.pop_front() {
                Some(item) => {
                    assert(self.queue@ =~= old(self).queue@.drop_first());
                    Received::Item(item)
                },
                None => Received::Empty,
            }
        }
    }

    /// Closes the channel and drops what was still waiting in it.
    pub fn close(&mut self)
        ensures
            final(self)@ == old(self)@.shut(),
    {
        self.queue.clear();
        self.closed = true;
    }

    /// Whether the channel was closed.
    pub fn is_closed(&self) -> (closed: bool)
        ensures
            closed == self@.closed,
    {
        self.closed
    }

    /// The number of items that wait in the channel.
    pub fn len(&self) -> (count: usize)
        ensures
            count == self@.queue.len(),
    {
        self.queue.len()
    }
}

} // verus!
