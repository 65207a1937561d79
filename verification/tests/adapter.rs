use gen_z::multiplex::{ChannelPoll, Multiplexer, PollOutput, ProducerPoll};
use gen_z::rendezvous::Rendezvous;
use gen_z::schedule::{drive, interleave_gated};
use gen_z::yielding::confirm_send;

#[test]
fn drive_yields_sent_items_in_order() {
    assert_eq!(drive(vec![1, 2, 3]), vec![1, 2, 3]);
}

#[test]
fn drive_keeps_long_runs_in_order() {
    let items: Vec<u64> = (0..100).collect();
    assert_eq!(drive(items.clone()), items);
}

#[test]
fn drive_empty_producer_yields_nothing() {
    assert_eq!(drive(Vec::<i32>::new()), Vec::<i32>::new());
}

#[test]
fn empty_producer_done_on_first_poll() {
    let mut mux = Multiplexer::new();
    let out = mux.poll(Some(ProducerPoll::Finished), Some(ChannelPoll::<i32>::Closed));
    assert!(matches!(out, PollOutput::Done));
}

#[test]
fn exhausted_is_sticky() {
    let mut mux = Multiplexer::new();
    let out = mux.poll(Some(ProducerPoll::Finished), Some(ChannelPoll::<i32>::Closed));
    assert!(matches!(out, PollOutput::Done));
    for _ in 0..3 {
        let again = mux.poll(None::<ProducerPoll>, None::<ChannelPoll<i32>>);
        assert!(matches!(again, PollOutput::Done));
    }
}

#[test]
fn done_only_after_producer_finishes_and_channel_drains() {
    let mut mux = Multiplexer::new();
    let out = mux.poll(Some(ProducerPoll::Progressing), Some(ChannelPoll::<i32>::Empty));
    assert!(matches!(out, PollOutput::Pending));
    let out = mux.poll(Some(ProducerPoll::Progressing), Some(ChannelPoll::Item(5)));
    assert!(matches!(out, PollOutput::Item(5)));
    // The producer finishes while the read-end has not reported closed yet:
    // the sequence drains instead of ending.
    let out = mux.poll(Some(ProducerPoll::Finished), Some(ChannelPoll::<i32>::Empty));
    assert!(matches!(out, PollOutput::Pending));
    assert!(mux.producer_done);
    assert!(!mux.channel_closed);
    let out = mux.poll(None::<ProducerPoll>, Some(ChannelPoll::<i32>::Closed));
    assert!(matches!(out, PollOutput::Done));
}

#[test]
fn gated_producers_interleave_in_causal_order() {
    assert_eq!(interleave_gated(1, 2, 3), vec![1, 2, 3]);
}

#[test]
fn gated_producers_interleave_other_values() {
    assert_eq!(
        interleave_gated("first of a", "only one of b", "second of a"),
        vec!["first of a", "only one of b", "second of a"]
    );
}

#[test]
fn rendezvous_hands_each_item_over_once() {
    let mut chan = Rendezvous::new();
    assert!(chan.offer(7).is_ok());
    assert!(matches!(chan.poll_read(), ChannelPoll::Item(7)));
    assert!(matches!(chan.poll_read(), ChannelPoll::Empty));
    chan.drop_write_end();
    assert!(matches!(chan.poll_read(), ChannelPoll::Closed));
}

#[test]
fn send_after_consumer_drop_fails_fatally() {
    let mut chan = Rendezvous::new();
    assert!(chan.offer(1).is_ok());
    let mut consumed = Vec::new();
    if let ChannelPoll::Item(v) = chan.poll_read() {
        consumed.push(v);
    }
    assert_eq!(consumed, vec![1]);
    // The consumer gives up after the first item; the producer's next send
    // must fail with the documented diagnostic, not hang or vanish.
    chan.drop_read_end();
    let second = chan.offer(2);
    assert_eq!(second, Err(2));
    let resolved = confirm_send(second);
    assert_eq!(
        resolved,
        Err("Infallible sends should only be used where they cannot fail")
    );
}

#[test]
fn confirm_send_passes_success_through() {
    let resolved = confirm_send::<i32>(Ok(()));
    assert_eq!(resolved, Ok(()));
}
