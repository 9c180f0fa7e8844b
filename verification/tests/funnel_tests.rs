use rups::pty::{PtySink, WriteOutcome};
use rups::rx_wrapper::ReceiverWrapper;
use rups::send_all::{Reason, SendAll, StepResult, StreamEvent};

#[test]
fn alternating_sink_delivers_each_item_exactly_once() {
    // The sink alternately refuses (would-block) and accepts: every
    // chunk reaches it exactly once, in order, none skipped or repeated.
    let mut funnel = SendAll::new();
    let mut sink = PtySink::new();
    let chunks: [&[u8]; 3] = [b"one", b"two", b"three"];
    let mut delivered: Vec<u8> = Vec::new();
    for chunk in chunks.iter() {
        // First offer: the sink refuses; the chunk waits in the slot.
        let r = funnel.poll_step(
            &mut sink,
            StreamEvent::Item(chunk.to_vec()),
            false,
            WriteOutcome::WouldBlock,
        );
        assert!(matches!(r, StepResult::NotReady));
        assert!(funnel.has_buffered());
        // Re-offer: the sink accepts the same chunk whole.
        let r = funnel.poll_step(
            &mut sink,
            StreamEvent::NotReady,
            false,
            WriteOutcome::Wrote(chunk.len()),
        );
        assert!(matches!(r, StepResult::Continue));
        assert!(!funnel.has_buffered());
        delivered.extend_from_slice(chunk);
    }
    // Nothing pending on the sink: all bytes went through once.
    assert!(!sink.has_pending());
}

#[test]
fn stream_end_finishes_the_run() {
    let mut funnel = SendAll::new();
    let mut sink = PtySink::new();
    let r = funnel.poll_step(&mut sink, StreamEvent::Ended, false, WriteOutcome::WouldBlock);
    assert!(matches!(r, StepResult::Done(Reason::StreamEnded)));
}

#[test]
fn idle_stream_flushes_pending_bytes() {
    let mut funnel = SendAll::new();
    let mut sink = PtySink::new();
    let r = funnel.poll_step(
        &mut sink,
        StreamEvent::Item(b"abcd".to_vec()),
        false,
        WriteOutcome::Wrote(1),
    );
    assert!(matches!(r, StepResult::Continue));
    assert!(sink.has_pending());
    // A flush that empties the pending buffer lets the funnel proceed.
    let r = funnel.poll_step(&mut sink, StreamEvent::NotReady, false, WriteOutcome::Wrote(3));
    assert!(matches!(r, StepResult::Continue));
    assert!(!sink.has_pending());
    // A partial flush leaves the rest for the next drain.
    let r = funnel.poll_step(
        &mut sink,
        StreamEvent::Item(b"more".to_vec()),
        false,
        WriteOutcome::Wrote(2),
    );
    assert!(matches!(r, StepResult::Continue));
    let r = funnel.poll_step(&mut sink, StreamEvent::NotReady, false, WriteOutcome::Wrote(1));
    assert!(matches!(r, StepResult::NotReady));
    assert!(sink.has_pending());
    let r = funnel.poll_step(&mut sink, StreamEvent::NotReady, false, WriteOutcome::Wrote(1));
    assert!(matches!(r, StepResult::Continue));
    assert!(!sink.has_pending());
}

#[test]
fn sink_end_mid_item_hands_the_item_to_the_next_sink_first() {
    // The child exits while the funnel holds a chunk: the run ends with
    // the chunk handed back; after a respawn the fresh sink receives it
    // before anything enqueued later.
    let mut rx: ReceiverWrapper<Vec<u8>> = ReceiverWrapper::new();
    let mut funnel = SendAll::new();
    let mut sink = PtySink::new();
    let r = funnel.poll_step(
        &mut sink,
        StreamEvent::Item(b"X".to_vec()),
        true,  // the child died while the chunk was in flight
        WriteOutcome::WouldBlock,
    );
    let handed_back = match r {
        StepResult::Done(Reason::SinkEnded { last_item: Some(item) }) => item,
        _ => panic!("expected the in-flight chunk back"),
    };
    assert_eq!(handed_back, b"X".to_vec());
    rx.undo(handed_back);
    // A newer chunk arrives while the child is down.
    let queued = b"Y".to_vec();
    // The supervisor respawned: a fresh funnel drives a fresh sink. The
    // undone chunk is yielded first, before the queued one.
    let mut funnel = SendAll::new();
    let mut sink = PtySink::new();
    let first = rx.poll(None).expect("the undone chunk comes first");
    assert_eq!(first, b"X".to_vec());
    let r = funnel.poll_step(&mut sink, StreamEvent::Item(first), false, WriteOutcome::Wrote(1));
    assert!(matches!(r, StepResult::Continue));
    let second = rx.poll(Some(queued)).expect("then the queued chunk");
    assert_eq!(second, b"Y".to_vec());
    let r = funnel.poll_step(&mut sink, StreamEvent::Item(second), false, WriteOutcome::Wrote(1));
    assert!(matches!(r, StepResult::Continue));
}

#[test]
fn undo_slot_yields_before_upstream() {
    let mut rx: ReceiverWrapper<u32> = ReceiverWrapper::new();
    assert_eq!(rx.poll(Some(7)), Some(7));
    rx.undo(5);
    assert_eq!(rx.poll(None), Some(5));
    assert_eq!(rx.poll(Some(9)), Some(9));
    assert_eq!(rx.poll(None), None);
}
