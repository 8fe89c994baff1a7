//! The notification channel: a bounded queue of payment hashes, first in,
//! first out.
//!
//! A full channel takes nothing more until the consumer has taken something
//! out: the hash comes back to the producer, which waits and offers it again.
//! Nothing is dropped and nothing is reordered.

use vstd::prelude::*;
use crate::json::opt_text;
use crate::text::{lemma_texts_push, texts};

verus! {

/// The number of slots of the channel that a multiplexer makes for itself.
pub const CHANNEL_CAPACITY: usize = 8;

/// What a channel holds: the queued payment hashes, oldest first, the number
/// of slots, and whether the channel has been closed.
pub ghost struct ChannelState {
    pub queue: Seq<Seq<char>>,
    pub capacity: nat,
    pub closed: bool,
}

/// Why the channel did not take a hash.
#[derive(Clone, Copy, Debug, PartialEq, Eq, Structural)]
pub enum SendError {
    /// Every slot is taken; the producer waits and offers the hash again.
    Full,
    /// The channel is closed; there is nobody left to deliver to.
    Closed,
}

/// A hash that the channel did not take, with the reason.
#[derive(Debug)]
pub struct Rejected {
    pub reason: SendError,
    pub hash: String,
}

impl ChannelState {
    /// The queue is within its capacity, and there is at least one slot.
    pub open spec fn valid(self) -> bool {
        0 < self.capacity && self.queue.len() <= self.capacity
    }

    /// Whether every slot is taken.
    pub open spec fn is_full(self) -> bool {
        self.queue.len() >= self.capacity
    }

    /// The outcome of offering `hash`: the error, if the channel does not
    /// take it. A closed channel takes nothing; an open one takes the hash
    /// unless it is full.
    pub open spec fn send_outcome(self) -> Option<SendError> {
        if self.closed {
            Some(SendError::Closed)
        } else if self.is_full() {
            Some(SendError::Full)
        } else {
            None
        }
    }

    /// The channel after offering `hash`: the hash is at the back of the
    /// queue where it was taken, and the channel is unchanged where it was
    /// not.
    pub open spec fn after_send(self, hash: Seq<char>) -> ChannelState {
        if self.send_outcome() is None {
            ChannelState { queue: self.queue.push(hash), ..self }
        } else {
            self
        }
    }

    /// How many of `offered` hashes the channel takes at once: none where it
    /// is closed, and otherwise as many as it has free slots.
    pub open spec fn room_for(self, offered: nat) -> nat {
        if self.closed || self.queue.len() >= self.capacity {
            0
        } else if offered <= self.capacity - self.queue.len() {
            offered
        } else {
            (self.capacity - self.queue.len()) as nat
        }
    }

    /// The hash that the consumer receives next: the oldest one.
    pub open spec fn front(self) -> Option<Seq<char>> {
        if self.queue.len() > 0 {
            Some(self.queue[0])
        } else {
            None
        }
    }

    /// The channel after the consumer has received: without its oldest hash.
    pub open spec fn after_recv(self) -> ChannelState {
        if self.queue.len() > 0 {
            ChannelState { queue: self.queue.skip(1), ..self }
        } else {
            self
        }
    }
}

/// The bounded queue between the transports and the application.
#[derive(Debug)]
pub struct NotificationChannel {
    queue: Vec<String>,
    capacity: usize,
    closed: bool,
}

impl View for NotificationChannel {
    type V = ChannelState;

    closed spec fn view(&self) -> ChannelState {
        ChannelState {
            queue: texts(self.queue@),
            capacity: self.capacity as nat,
            closed: self.closed,
        }
    }
}

impl NotificationChannel {
    /// The channel's invariant: see [`ChannelState::valid`].
    pub open spec fn wf(&self) -> bool {
        self@.valid()
    }

    /// An empty, open channel with `capacity` slots; `None` where `capacity`
    /// is zero.
    pub fn with_capacity(capacity: usize) -> (r: Option<NotificationChannel>)
        ensures
            r is Some <==> capacity > 0,
            r is Some ==> r->Some_0.wf() && r->Some_0@ == (ChannelState {
                queue: Seq::empty(),
                capacity: capacity as nat,
                closed: false,
            }),
    {
        if capacity == 0 {
            None
        } else {
            let channel = NotificationChannel { queue: Vec::new(), capacity, closed: false };
            assert(channel@.queue =~= Seq::empty());
            Some(channel)
        }
    }

    /// An empty, open channel with [`CHANNEL_CAPACITY`] slots.
    pub fn new() -> (r: NotificationChannel)
        ensures
            r.wf(),
            r@ == (ChannelState {
                queue: Seq::empty(),
                capacity: CHANNEL_CAPACITY as nat,
                closed: false,
            }),
    {
        let channel = NotificationChannel {
            queue: Vec::new(),
            capacity: CHANNEL_CAPACITY,
            closed: false,
        };
        assert(channel@.queue =~= Seq::empty());
        channel
    }

    /// The number of queued hashes.
    pub fn len(&self) -> (r: usize)
        ensures
            r == self@.queue.len(),
    {
        self.queue.len()
    }

    /// Whether nothing is queued.
    pub fn is_empty(&self) -> (r: bool)
        ensures
            r == (self@.queue.len() == 0),
    {
        self.queue.len() == 0
    }

    /// The number of slots.
    pub fn capacity(&self) -> (r: usize)
        ensures
            r == self@.capacity,
    {
        self.capacity
    }

    /// Whether every slot is taken.
    pub fn is_full(&self) -> (r: bool)
        ensures
            r == self@.is_full(),
    {
        self.queue.len() >= self.capacity
    }

    /// Whether the channel has been closed.
    pub fn is_closed(&self) -> (r: bool)
        ensures
            r == self@.closed,
    {
        self.closed
    }

    /// Offers a hash. It is queued behind all the others unless the channel
    /// is closed or full; then the channel is unchanged and the hash comes
    /// back with the reason.
    pub fn try_send(&mut self, hash: String) -> (r: Result<(), Rejected>)
        requires
            old(self).wf(),
        ensures
            final(self).wf(),
            final(self)@ == old(self)@.after_send(hash@),
            match r {
                Ok(_) => old(self)@.send_outcome() is None,
                Err(rejected) => old(self)@.send_outcome() == Some(rejected.reason)
                    && rejected.hash == hash,
            },
    {
        if self.closed {
            Err(Rejected { reason: SendError::Closed, hash })
        } else if self.queue.len() >= self.capacity {
            Err(Rejected { reason: SendError::Full, hash })
        } else {
            proof {
                lemma_texts_push(self.queue@, hash);
            }
            self.queue.push(hash);
            Ok(())
        }
    }

    /// Offers several hashes in order. The channel takes as many as it has
    /// room for, from the front, and queues them in the order given; the
    /// others come back, in order, for the producer to offer again.
    pub fn send_all(&mut self, hashes: Vec<String>) -> (rest: Vec<String>)
        requires
            old(self).wf(),
        ensures
            final(self).wf(),
            final(self)@ == (ChannelState {
                queue: old(self)@.queue + texts(hashes@).take(
                    old(self)@.room_for(hashes@.len()) as int,
                ),
                ..old(self)@
            }),
            texts(rest@) == texts(hashes@).skip(old(self)@.room_for(hashes@.len()) as int),
    {
        let ghost offered = texts(hashes@);
        let ghost before = self@;
        let mut rest = hashes;
        let mut taken: usize = 0;
        assert(before.queue + offered.take(0) =~= before.queue);
        assert(offered.skip(0) =~= offered);
        while rest.len() > 0 && !self.closed && self.queue.len() < self.capacity
            invariant
                self.wf(),
                taken + rest@.len() == offered.len(),
                taken <= before.room_for(offered.len()),
                texts(rest@) == offered.skip(taken as int),
                self@ == (ChannelState {
                    queue: before.queue + offered.take(taken as int),
                    ..before
                }),
            decreases rest@.len(),
        {
            let ghost queue_before = self@.queue;
            let ghost rest_before = texts(rest@);
            let hash = rest.remove(0);
            proof {
                assert(hash@ == rest_before[0]);
                assert(texts(rest@) =~= rest_before.skip(1));
                assert(rest_before.skip(1) =~= offered.skip(taken + 1));
                lemma_texts_push(self.queue@, hash);
                assert(offered.take(taken + 1) =~= offered.take(taken as int).push(hash@));
                assert((before.queue + offered.take(taken as int)).push(hash@) =~= before.queue
                    + offered.take(taken + 1));
            }
            self.queue.push(hash);
            taken += 1;
        }
        assert(taken == before.room_for(offered.len()));
        rest
    }

    /// Takes the oldest hash out, if there is one. A closed channel can
    /// still be drained.
    pub fn recv(&mut self) -> (r: Option<String>)
        requires
            old(self).wf(),
        ensures
            final(self).wf(),
            final(self)@ == old(self)@.after_recv(),
            opt_text(r) == old(self)@.front(),
    {
        if self.queue.len() == 0 {
            None
        } else {
            let hash = self.queue.remove(0);
            assert(texts(self.queue@) =~= texts(old(self).queue@).skip(
                1,
            ));
            Some(hash)
        }
    }

    /// Closes the channel. What is queued stays queued.
    pub fn close(&mut self)
        ensures
            final(self)@ == (ChannelState { closed: true, ..old(self)@ }),
    {
        self.closed = true;
    }
}

/// A hash offered twice is queued twice: the channel does not look for
/// duplicates.
pub proof fn law_channel_keeps_duplicates(channel: ChannelState, hash: Seq<char>)
    requires
        channel.valid(),
        !channel.closed,
        channel.queue.len() + 2 <= channel.capacity,
    ensures
        channel.after_send(hash).after_send(hash).queue == channel.queue + seq![hash, hash],
{
    assert(channel.queue.push(hash).push(hash) =~= channel.queue + seq![hash, hash]);
}

/// Hashes leave the channel in the order in which they entered it.
pub proof fn law_channel_is_first_in_first_out(
    channel: ChannelState,
    first: Seq<char>,
    second: Seq<char>,
)
    requires
        channel.valid(),
        !channel.closed,
        channel.queue.len() == 0,
        channel.capacity >= 2,
    ensures
        ({
            let filled = channel.after_send(first).after_send(second);
            &&& filled.front() == Some(first)
            &&& filled.after_recv().front() == Some(second)
            &&& filled.after_recv().after_recv().queue.len() == 0
        }),
{
}

/// A full channel takes nothing and loses nothing; once the consumer has
/// taken one hash out, the next offer is accepted.
pub proof fn law_full_channel_pushes_back(channel: ChannelState, hash: Seq<char>)
    requires
        channel.valid(),
        !channel.closed,
        channel.is_full(),
    ensures
        channel.send_outcome() == Some(SendError::Full),
        channel.after_send(hash) == channel,
        channel.after_recv().send_outcome() is None,
        channel.after_recv().after_send(hash).queue == channel.queue.skip(1).push(hash),
{
}

} // verus!
