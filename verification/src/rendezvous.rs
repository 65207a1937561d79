//! A model of the capacity-zero hand-off channel.
//!
//! The channel is precisely two-sided: the producer owns the write-end, the
//! adapter keeps the read-end. With capacity zero there is no buffering — at
//! most one item is in flight, and the producer's send only completes once the
//! read-end has taken that item. Each operation here is one observable step of
//! that protocol; the contracts say exactly what each step does, so the
//! executions in [`crate::schedule`] are proved against them.

use vstd::prelude::*;
use crate::multiplex::ChannelPoll;

verus! {

/// The hand-off channel: one slot, one write-end, one read-end.
pub struct Rendezvous<T> {
    slot: Option<T>,
    write_live: bool,
    read_live: bool,
}

impl<T> Rendezvous<T> {
    /// The item offered by the write-end and not yet taken by the read-end.
    pub closed spec fn in_flight(self) -> Option<T> {
        self.slot
    }

    /// The write-end has not been dropped.
    pub closed spec fn write_end_live(self) -> bool {
        self.write_live
    }

    /// The read-end has not been dropped.
    pub closed spec fn read_end_live(self) -> bool {
        self.read_live
    }

    /// A fresh channel: both ends live, nothing in flight.
    pub fn new() -> (c: Rendezvous<T>)
        ensures
            c.in_flight() is None,
            c.write_end_live(),
            c.read_end_live(),
    {
        Rendezvous { slot: None, write_live: true, read_live: true }
    }

    /// The write-end starts a send. If the read-end is still there the item
    /// goes in flight and the sender suspends until it is taken; if the
    /// consumer already gave up, the item bounces back as the error.
    pub fn offer(&mut self, item: T) -> (r: Result<(), T>)
        requires
            old(self).write_end_live(),
            old(self).in_flight() is None,
        ensures
            old(self).read_end_live() ==> r is Ok && final(self).in_flight() == Some(item),
            !old(self).read_end_live() ==> r == Err::<(), T>(item)
                && final(self).in_flight() is None,
            final(self).write_end_live() == old(self).write_end_live(),
            final(self).read_end_live() == old(self).read_end_live(),
    {
        if self.read_live {
            self.slot = Some(item);
            Ok(())
        } else {
            Err(item)
        }
    }

    /// One poll of the read-end: take the item in flight if there is one;
    /// otherwise report whether the channel is merely empty for now or closed
    /// for good because the write-end is gone.
    pub fn poll_read(&mut self) -> (r: ChannelPoll<T>)
        requires
            old(self).read_end_live(),
        ensures
            old(self).in_flight() matches Some(v) ==> r == ChannelPoll::Item(v)
                && final(self).in_flight() is None,
            old(self).in_flight() is None && old(self).write_end_live()
                ==> r == ChannelPoll::<T>::Empty && *final(self) == *old(self),
            old(self).in_flight() is None && !old(self).write_end_live()
                ==> r == ChannelPoll::<T>::Closed && *final(self) == *old(self),
            final(self).write_end_live() == old(self).write_end_live(),
            final(self).read_end_live() == old(self).read_end_live(),
    {
        match self.slot.take() {
            Some(v) => ChannelPoll::Item(v),
            None => {
                if self.write_live {
                    ChannelPoll::Empty
                } else {
                    ChannelPoll::Closed
                }
            },
        }
    }

    /// The producer computation returned, which drops its write-end; the
    /// read-end will report closed once nothing is left to take.
    pub fn drop_write_end(&mut self)
        ensures
            !final(self).write_end_live(),
            final(self).read_end_live() == old(self).read_end_live(),
            final(self).in_flight() == old(self).in_flight(),
    {
        self.write_live = false;
    }

    /// The consumer gave the sequence up, which drops the read-end; anything
    /// still in flight is discarded with it, and every later send bounces.
    pub fn drop_read_end(&mut self)
        ensures
            !final(self).read_end_live(),
            final(self).write_end_live() == old(self).write_end_live(),
            final(self).in_flight() is None,
    {
        self.read_live = false;
        self.slot = None;
    }
}

} // verus!
