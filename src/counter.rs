//! A bounded FIFO channel whose occupancy counter is updated in the same step
//! as each enqueue and dequeue, so that it always equals the number of items
//! sent minus the number received.

use vstd::prelude::*;

verus! {

/// Why an item was not sent; the item comes back.
#[derive(Debug)]
pub enum SendError<T> {
    /// The receiving side is gone.
    Closed(T),
    /// The channel holds as many items as its capacity.
    Full(T),
}

/// Why nothing was received.
#[derive(Clone, Copy, Debug, PartialEq, Eq, Structural)]
pub enum RecvError {
    /// No item is waiting, and the sending side may still send.
    Empty,
    /// No item is waiting, and the sending side is gone.
    Closed,
}

pub struct CountedChannel<T> {
    queue: Vec<T>,
    capacity: usize,
    size: usize,
    sender_open: bool,
    receiver_open: bool,
    sent: Ghost<nat>,
    received: Ghost<nat>,
}

impl<T> CountedChannel<T> {
    /// The items waiting, oldest first.
    pub closed spec fn items(&self) -> Seq<T> {
        self.queue@
    }

    pub closed spec fn capacity_spec(&self) -> nat {
        self.capacity as nat
    }

    /// The value of the occupancy counter.
    pub closed spec fn count(&self) -> nat {
        self.size as nat
    }

    /// How many sends have succeeded.
    pub closed spec fn sends(&self) -> nat {
        self.sent@
    }

    /// How many receives have succeeded.
    pub closed spec fn receives(&self) -> nat {
        self.received@
    }

    pub closed spec fn sender_open_spec(&self) -> bool {
        self.sender_open
    }

    pub closed spec fn receiver_open_spec(&self) -> bool {
        self.receiver_open
    }

    pub closed spec fn wf(&self) -> bool {
        &&& self.size == self.queue@.len()
        &&& self.sent@ == self.received@ + self.size
        &&& self.size <= self.capacity
    }

    /// An empty channel that holds at most `capacity` items, with both sides open.
    pub fn new(capacity: usize) -> (r: Self)
        requires
            capacity > 0,
        ensures
            r.wf(),
            r.items() == Seq::<T>::empty(),
            r.capacity_spec() == capacity,
            r.sends() == 0,
            r.receives() == 0,
            r.sender_open_spec(),
            r.receiver_open_spec(),
    {
        CountedChannel {
            queue: Vec::new(),
            capacity,
            size: 0,
            sender_open: true,
            receiver_open: true,
            sent: Ghost(0),
            received: Ghost(0),
        }
    }

    /// Enqueues `t` and counts it. Fails, handing `t` back and changing
    /// nothing, when the receiving side is gone or the channel is full.
    pub fn send(&mut self, t: T) -> (r: Result<(), SendError<T>>)
        requires
            old(self).wf(),
        ensures
            final(self).wf(),
            final(self).capacity_spec() == old(self).capacity_spec(),
            final(self).sender_open_spec() == old(self).sender_open_spec(),
            final(self).receiver_open_spec() == old(self).receiver_open_spec(),
            final(self).receives() == old(self).receives(),
            !old(self).receiver_open_spec() ==> r == Err::<(), SendError<T>>(SendError::Closed(t))
                && final(self).items() == old(self).items() && final(self).sends() == old(self).sends(),
            old(self).receiver_open_spec() && old(self).items().len() >= old(self).capacity_spec()
                ==> r == Err::<(), SendError<T>>(SendError::Full(t)) && final(self).items() == old(
                self,
            ).items() && final(self).sends() == old(self).sends(),
            old(self).receiver_open_spec() && old(self).items().len() < old(self).capacity_spec()
                ==> r is Ok && final(self).items() == old(self).items().push(t) && final(self).sends()
                == old(self).sends() + 1,
    {
        if !self.receiver_open {
            return Err(SendError::Closed(t));
        }
        if self.size >= self.capacity {
            return Err(SendError::Full(t));
        }
        self.queue.push(t);
        self.size = self.size + 1;
        self.sent = Ghost(self.sent@ + 1);
        Ok(())
    }

    /// Dequeues the oldest item and counts it. With nothing waiting, fails
    /// with `Empty` while the sending side is open and `Closed` after.
    pub fn recv(&mut self) -> (r: Result<T, RecvError>)
        requires
            old(self).wf(),
        ensures
            final(self).wf(),
            final(self).capacity_spec() == old(self).capacity_spec(),
            final(self).sender_open_spec() == old(self).sender_open_spec(),
            final(self).receiver_open_spec() == old(self).receiver_open_spec(),
            final(self).sends() == old(self).sends(),
            old(self).items().len() == 0 ==> final(self).items() == old(self).items()
                && final(self).receives() == old(self).receives() && r == Err::<T, RecvError>(
                if old(self).sender_open_spec() {
                    RecvError::Empty
                } else {
                    RecvError::Closed
                },
            ),
            old(self).items().len() > 0 ==> r == Ok::<T, RecvError>(old(self).items()[0])
                && final(self).items() == old(self).items().drop_first() && final(self).receives()
                == old(self).receives() + 1,
    {
        if self.size == 0 {
            if self.sender_open {
                return Err(RecvError::Empty);
            } else {
                return Err(RecvError::Closed);
            }
        }
        let t = self.queue.remove(0);
        self.size = self.size - 1;
        self.received = Ghost(self.received@ + 1);
        Ok(t)
    }

    /// The occupancy counter.
    pub fn len(&self) -> (r: usize)
        requires
            self.wf(),
        ensures
            r == self.count(),
            r == self.items().len(),
            r == self.sends() - self.receives(),
    {
        self.size
    }

    /// The sending side is gone: once the waiting items are drained, receiving fails with `Closed`.
    pub fn close_sender(&mut self)
        requires
            old(self).wf(),
        ensures
            final(self).wf(),
            !final(self).sender_open_spec(),
            final(self).receiver_open_spec() == old(self).receiver_open_spec(),
            final(self).items() == old(self).items(),
            final(self).capacity_spec() == old(self).capacity_spec(),
            final(self).sends() == old(self).sends(),
            final(self).receives() == old(self).receives(),
    {
        self.sender_open = false;
    }

    /// The receiving side is gone: every later send fails with `Closed`.
    pub fn close_receiver(&mut self)
        requires
            old(self).wf(),
        ensures
            final(self).wf(),
            !final(self).receiver_open_spec(),
            final(self).sender_open_spec() == old(self).sender_open_spec(),
            final(self).items() == old(self).items(),
            final(self).capacity_spec() == old(self).capacity_spec(),
            final(self).sends() == old(self).sends(),
            final(self).receives() == old(self).receives(),
    {
        self.receiver_open = false;
    }
}

/// In every state that sends, receives and closings reach, the counter equals
/// the successful sends minus the successful receives: it is never negative and
/// never above the number of sends.
pub proof fn count_is_sends_minus_receives<T>(c: CountedChannel<T>)
    requires
        c.wf(),
    ensures
        c.count() == c.sends() - c.receives(),
        c.receives() <= c.sends(),
        c.count() <= c.sends(),
        c.count() == c.items().len(),
{
}

} // verus!
