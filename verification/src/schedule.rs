//! Cooperative executions of the whole adapter.
//!
//! Nothing here spawns a task: the producer computation and the combined
//! sequence only make progress when polled, and each function in this module
//! is one such cooperative execution, written out poll by poll against the
//! contracts of [`crate::rendezvous`] and [`crate::multiplex`]. One poll of a
//! combined sequence polls both of its sources — first the producer
//! computation, then the read-end — so neither starves the other.
//!
//! The functions' contracts are the adapter's end-to-end guarantees: the
//! consumed sequence is exactly what was sent, in send order; it ends exactly
//! when the producer has finished and nothing is pending; and under a fair
//! merge of two causally gated producers, the causally forced order comes out.

use vstd::prelude::*;
use crate::multiplex::{ChannelPoll, Multiplexer, PollOutput, ProducerPoll};
use crate::rendezvous::Rendezvous;
use crate::yielding::confirm_send;

verus! {

/// Drive a producer that sends the given items in order, and consume the
/// combined sequence to completion: the consumed sequence is exactly the sent
/// one. Each loop pass is one poll of the combined sequence; at every send the
/// producer suspends until the read-end takes the item, so at most one item is
/// ever in flight. The loop's `decreases` makes the termination part of the
/// guarantee: a producer that sends finitely many items yields a sequence
/// that is consumed in finitely many polls.
pub fn drive<T>(items: Vec<T>) -> (out: Vec<T>)
    ensures
        out@ == items@,
{
    let ghost sent: Seq<T> = items@;
    let mut pending = items;
    let mut chan: Rendezvous<T> = Rendezvous::new();
    let mut mux = Multiplexer::new();
    let mut out: Vec<T> = Vec::new();
    loop
        invariant
            chan.read_end_live(),
            chan.write_end_live(),
            chan.in_flight() is None,
            !mux.producer_done,
            !mux.channel_closed,
            sent == items@,
            out@ + pending@ == sent,
        decreases pending.len(),
    {
        // Poll the producer computation: it advances to its next send and
        // suspends there, or it returns, dropping its write-end.
        let producer_ev: ProducerPoll;
        if pending.len() > 0 {
            let ghost before = pending@;
            let item = pending.remove(0);
            proof {
                assert(seq![item] + pending@ =~= before);
            }
            match confirm_send(chan.offer(item)) {
                Ok(()) => {},
                Err(_) => {
                    proof {
                        assert(false);
                    }
                },
            }
            producer_ev = ProducerPoll::Progressing;
        } else {
            chan.drop_write_end();
            producer_ev = ProducerPoll::Finished;
        }
        // Poll the read-end, then let the multiplexer decide what the
        // consumer sees.
        let channel_ev = chan.poll_read();
        match mux.poll(Some(producer_ev), Some(channel_ev)) {
            PollOutput::Item(v) => out.push(v),
            PollOutput::Done => {
                proof {
                    assert(out@ + pending@ =~= out@);
                }
                return out;
            },
            PollOutput::Pending => {
                proof {
                    assert(false);
                }
            },
        }
    }
}

/// Fair interleaving preserves causally forced order. Two producers run under
/// the same cooperative scheduler and their combined sequences are merged by
/// polling both fairly, once each per round. Producer `A` sends `first_a`,
/// signals `B`, waits for `B`'s signal, then sends `second_a`; producer `B`
/// waits for `A`'s signal, sends `first_b`, then signals `A`. Whatever the
/// values, the merged output is `[first_a, first_b, second_a]`: each item
/// appears only once the sends it causally depends on have completed, so
/// progress is driven purely by poll-time interleaving, with nothing buffered
/// ahead.
pub fn interleave_gated<T>(first_a: T, first_b: T, second_a: T) -> (out: Vec<T>)
    ensures
        out@ == seq![first_a, first_b, second_a],
{
    let mut chan_a: Rendezvous<T> = Rendezvous::new();
    let mut mux_a = Multiplexer::new();
    let mut chan_b: Rendezvous<T> = Rendezvous::new();
    let mut mux_b = Multiplexer::new();
    let mut out: Vec<T> = Vec::new();

    // Round 1. A reaches its first send and suspends; the read-end takes the
    // item, so the merge emits it. B is still waiting for A's signal, which A
    // only raises after this send completes: B's combined sequence is pending.
    match confirm_send(chan_a.offer(first_a)) {
        Ok(()) => {},
        Err(_) => {
            proof {
                assert(false);
            }
        },
    }
    let ev_a = chan_a.poll_read();
    match mux_a.poll(Some(ProducerPoll::Progressing), Some(ev_a)) {
        PollOutput::Item(v) => out.push(v),
        _ => {
            proof {
                assert(false);
            }
        },
    }
    let ev_b = chan_b.poll_read();
    match mux_b.poll(Some(ProducerPoll::Progressing), Some(ev_b)) {
        PollOutput::Pending => {},
        _ => {
            proof {
                assert(false);
            }
        },
    }

    // Round 2. A's first send has completed, so A raises its signal and
    // suspends waiting for B's; its sequence is pending. B sees A's signal,
    // reaches its send and suspends; the read-end takes the item.
    let ev_a = chan_a.poll_read();
    match mux_a.poll(Some(ProducerPoll::Progressing), Some(ev_a)) {
        PollOutput::Pending => {},
        _ => {
            proof {
                assert(false);
            }
        },
    }
    match confirm_send(chan_b.offer(first_b)) {
        Ok(()) => {},
        Err(_) => {
            proof {
                assert(false);
            }
        },
    }
    let ev_b = chan_b.poll_read();
    match mux_b.poll(Some(ProducerPoll::Progressing), Some(ev_b)) {
        PollOutput::Item(v) => out.push(v),
        _ => {
            proof {
                assert(false);
            }
        },
    }

    // Round 3. A is still waiting: B only raises its signal after its send
    // completes, which needs B to be polled again. B resumes, signals A, and
    // returns; its write-end drops, its read-end reports closed, and B's
    // combined sequence is done.
    let ev_a = chan_a.poll_read();
    match mux_a.poll(Some(ProducerPoll::Progressing), Some(ev_a)) {
        PollOutput::Pending => {},
        _ => {
            proof {
                assert(false);
            }
        },
    }
    chan_b.drop_write_end();
    let ev_b = chan_b.poll_read();
    match mux_b.poll(Some(ProducerPoll::Finished), Some(ev_b)) {
        PollOutput::Done => {},
        _ => {
            proof {
                assert(false);
            }
        },
    }

    // Round 4. A sees B's signal, reaches its second send and suspends; the
    // read-end takes the item. B's exhausted sequence is polled again and
    // reports done again — end-of-sequence is sticky.
    match confirm_send(chan_a.offer(second_a)) {
        Ok(()) => {},
        Err(_) => {
            proof {
                assert(false);
            }
        },
    }
    let ev_a = chan_a.poll_read();
    match mux_a.poll(Some(ProducerPoll::Progressing), Some(ev_a)) {
        PollOutput::Item(v) => out.push(v),
        _ => {
            proof {
                assert(false);
            }
        },
    }
    match mux_b.poll(None::<ProducerPoll>, None::<ChannelPoll<T>>) {
        PollOutput::Done => {},
        _ => {
            proof {
                assert(false);
            }
        },
    }

    // Round 5. A's second send has completed; A returns, its write-end drops,
    // and its sequence is done. Both sources of the merge have ended.
    chan_a.drop_write_end();
    let ev_a = chan_a.poll_read();
    match mux_a.poll(Some(ProducerPoll::Finished), Some(ev_a)) {
        PollOutput::Done => {},
        _ => {
            proof {
                assert(false);
            }
        },
    }

    proof {
        assert(out@ =~= seq![first_a, first_b, second_a]);
    }
    out
}

} // verus!
