//! The decision core of the adapter: one poll of the combined sequence.
//!
//! The combined sequence watches two sources — the producer computation and
//! the hand-off channel's read-end — and multiplexes them into one ordered,
//! exhausted-sticky sequence. The driver polls the sources, reports what each
//! returned as a plain event, and [`Multiplexer::poll`] decides what the
//! consumer is told and which phase the sequence moves to.

use vstd::prelude::*;

verus! {

/// What one poll of the producer computation reported: it either suspended
/// again (typically at a `send`, waiting for the item to be taken) or it
/// returned, which ends its write-end's life.
#[derive(Clone, Copy, PartialEq, Eq, Structural)]
pub enum ProducerPoll {
    Progressing,
    Finished,
}

/// What one poll of the channel's read-end reported.
pub enum ChannelPoll<T> {
    /// Nothing in flight yet; the write-end is still live.
    Empty,
    /// An item the producer sent was taken off the channel.
    Item(T),
    /// The write-end is gone and nothing remains to take.
    Closed,
}

/// What one poll of the combined sequence tells the consumer.
pub enum PollOutput<T> {
    /// Neither source made consumer-visible progress.
    Pending,
    /// The next item of the sequence, in send order.
    Item(T),
    /// End of the sequence; repeated forever afterwards.
    Done,
}

/// Phase of the combined sequence.
pub enum Phase {
    /// The producer computation has not finished yet.
    Running,
    /// The producer has finished; the read-end may still hold items.
    Draining,
    /// Terminal: every further poll reports end-of-sequence.
    Exhausted,
}

/// The state the multiplexer carries between polls: which of its two sources
/// have already ended. The combined sequence ends exactly when both have.
#[derive(Clone, Copy, PartialEq, Eq, Structural)]
pub struct Multiplexer {
    /// The producer computation has returned.
    pub producer_done: bool,
    /// The read-end reported closed-and-empty.
    pub channel_closed: bool,
}

impl Multiplexer {
    pub open spec fn phase(self) -> Phase {
        if self.producer_done && self.channel_closed {
            Phase::Exhausted
        } else if self.producer_done {
            Phase::Draining
        } else {
            Phase::Running
        }
    }

    /// The transition taken by one poll of the combined sequence. A source's
    /// event is `None` when the driver no longer polls it because it has
    /// already ended; once exhausted, nothing is polled and nothing changes.
    pub open spec fn step<T>(
        m: Multiplexer,
        producer: Option<ProducerPoll>,
        channel: Option<ChannelPoll<T>>,
    ) -> (Multiplexer, PollOutput<T>) {
        if m.phase() is Exhausted {
            (m, PollOutput::Done)
        } else {
            let done = m.producer_done || producer == Some(ProducerPoll::Finished);
            let closed = m.channel_closed || channel matches Some(ChannelPoll::Closed);
            let next = Multiplexer { producer_done: done, channel_closed: closed };
            match channel {
                Some(ChannelPoll::Item(v)) => (next, PollOutput::Item(v)),
                _ => if done && closed {
                    (next, PollOutput::Done)
                } else {
                    (next, PollOutput::Pending)
                },
            }
        }
    }

    /// A fresh combined sequence: producer running, channel open.
    pub fn new() -> (m: Multiplexer)
        ensures
            m == (Multiplexer { producer_done: false, channel_closed: false }),
    {
        Multiplexer { producer_done: false, channel_closed: false }
    }

    /// One poll of the combined sequence: fold the two sources' reports into
    /// the consumer's answer, exactly as [`Multiplexer::step`] says.
    pub fn poll<T>(
        &mut self,
        producer: Option<ProducerPoll>,
        channel: Option<ChannelPoll<T>>,
    ) -> (out: PollOutput<T>)
        ensures
            (*final(self), out) == Multiplexer::step(*old(self), producer, channel),
    {
        if self.producer_done && self.channel_closed {
            return PollOutput::Done;
        }
        if let Some(ProducerPoll::Finished) = producer {
            self.producer_done = true;
        }
        match channel {
            Some(ChannelPoll::Item(v)) => PollOutput::Item(v),
            Some(ChannelPoll::Closed) => {
                self.channel_closed = true;
                if self.producer_done {
                    PollOutput::Done
                } else {
                    PollOutput::Pending
                }
            },
            _ => {
                if self.producer_done && self.channel_closed {
                    PollOutput::Done
                } else {
                    PollOutput::Pending
                }
            },
        }
    }
}

/// Exhausted-sticky: once the combined sequence has reported end-of-sequence,
/// every further poll reports end-of-sequence again and changes nothing,
/// whatever the driver feeds in.
pub proof fn lemma_exhausted_sticky<T>(
    m: Multiplexer,
    producer: Option<ProducerPoll>,
    channel: Option<ChannelPoll<T>>,
)
    requires
        m.phase() is Exhausted,
    ensures
        Multiplexer::step(m, producer, channel) == (m, PollOutput::<T>::Done),
{
}

/// End-of-sequence comes exactly when the producer computation has finished
/// and the read-end is closed with nothing pending. The requirement states the
/// driver's discipline: an exhausted sequence polls neither source.
pub proof fn lemma_done_exactly_when_drained<T>(
    m: Multiplexer,
    producer: Option<ProducerPoll>,
    channel: Option<ChannelPoll<T>>,
)
    requires
        m.phase() is Exhausted ==> producer is None && channel is None,
    ensures
        ({
            let (next, out) = Multiplexer::step(m, producer, channel);
            out is Done <==> next.producer_done && next.channel_closed
                && !(channel matches Some(ChannelPoll::Item(_)))
        }),
{
}

/// The combined sequence emits exactly what the read-end hands over: an item
/// comes out of a poll if and only if that same item came off the channel in
/// that poll. Nothing is invented, reordered, or held back.
pub proof fn lemma_emits_exactly_channel_items<T>(
    m: Multiplexer,
    producer: Option<ProducerPoll>,
    channel: Option<ChannelPoll<T>>,
)
    requires
        m.phase() is Exhausted ==> channel is None,
    ensures
        Multiplexer::step(m, producer, channel).1 matches PollOutput::Item(v)
            ==> channel == Some(ChannelPoll::Item(v)),
        channel matches Some(ChannelPoll::Item(v))
            ==> Multiplexer::step(m, producer, channel).1 == PollOutput::Item(v),
{
}

} // verus!
