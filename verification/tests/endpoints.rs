use pact::comm::Pull;
use pact::comm::Push;
use pact::comm::SinkPusher;
use pact::comm::SourcePuller;
use pact::logging::EventLog;
use pact::logging::Logger;
use pact::logging::MessagesEvent;
use pact::logging::NullLogger;
use pact::message::Content;
use pact::message::Message;
use pact::pact::Puller;
use pact::pact::Pusher;

#[test]
fn batch_round_trips_through_content() {
    let batch = Content::from_typed(vec![1u32, 2, 3]);
    assert_eq!(batch.len(), 3);
    assert_eq!(batch.records().as_slice(), &[1, 2, 3]);
    assert_eq!(batch.into_typed(), vec![1, 2, 3]);
}

#[test]
fn message_carries_its_framing() {
    let frame = Message::new(4u64, Content::from_typed(vec!['x']), 2, 11);
    assert_eq!(frame.time, 4);
    assert_eq!(frame.data.records().as_slice(), &['x']);
    assert_eq!(frame.from, 2);
    assert_eq!(frame.seq, 11);
}

#[test]
fn pusher_frames_batches_with_consecutive_sequence_numbers() {
    let mut send: Pusher<u64, u8, SinkPusher<Message<u64, u8>>, EventLog> =
        Pusher::new(SinkPusher::new(), EventLog::new(), 4, 6, 3);

    for (time, records) in [(1u64, vec![10u8, 20]), (2, vec![30u8]), (1, vec![])] {
        let mut slot = Some((time, Content::from_typed(records)));
        send.push(&mut slot);
    }

    let frames = send.endpoint().sent();
    assert_eq!(frames.len(), 3);
    for (position, frame) in frames.iter().enumerate() {
        assert_eq!(frame.seq, position);
        assert_eq!(frame.from, 4);
    }
    assert_eq!(frames[0].time, 1);
    assert_eq!(frames[1].time, 2);
    assert_eq!(frames[2].data.records().len(), 0);
    assert_eq!(
        send.sink().recorded().as_slice(),
        &[
            MessagesEvent { is_send: true, channel: 3, source: 4, target: 6, seq_no: 0, length: 2 },
            MessagesEvent { is_send: true, channel: 3, source: 4, target: 6, seq_no: 1, length: 1 },
            MessagesEvent { is_send: true, channel: 3, source: 4, target: 6, seq_no: 2, length: 0 },
        ]
    );
}

#[test]
fn pusher_turns_empty_slot_into_one_flush_and_no_frame() {
    let mut send: Pusher<u64, u8, SinkPusher<Message<u64, u8>>, EventLog> =
        Pusher::new(SinkPusher::new(), EventLog::new(), 0, 0, 0);

    let mut done: Option<(u64, Content<u8>)> = None;
    send.push(&mut done);

    assert!(done.is_none());
    assert_eq!(send.endpoint().sent().len(), 0);
    assert_eq!(send.endpoint().flushed(), 1);
    assert!(send.sink().recorded().is_empty());
}

#[test]
fn pusher_hands_back_the_spare_buffer_for_reuse() {
    // The raw endpoint holds one spent frame; a push must hand its storage
    // back to the caller in the slot, unwrapped, in place of the sent batch.
    let spare = Message::new(9u64, Content::from_typed(Vec::<u8>::new()), 0, 0);
    let mut send: Pusher<u64, u8, SinkPusher<Message<u64, u8>>, NullLogger> =
        Pusher::new(SinkPusher::with_spare(spare), NullLogger::new(), 1, 1, 0);

    let mut slot = Some((1u64, Content::from_typed(vec![1u8, 2])));
    send.push(&mut slot);

    let reused = slot.expect("spare buffer handed back");
    assert_eq!(reused.0, 9);
    assert_eq!(reused.1.len(), 0);

    // With no spare left, the next push leaves the slot empty.
    let mut slot = Some((2u64, Content::from_typed(vec![3u8])));
    send.push(&mut slot);
    assert!(slot.is_none());
}

#[test]
fn puller_unwraps_frames_and_reports_their_origin() {
    let incoming = vec![
        Message::new(1u64, Content::from_typed(vec![7u8, 8]), 5, 0),
        Message::new(1u64, Content::from_typed(vec![9u8]), 5, 1),
    ];
    let mut recv: Puller<u64, u8, SourcePuller<Message<u64, u8>>, EventLog> =
        Puller::new(SourcePuller::new(incoming), EventLog::new(), 2, 8);

    let first = recv.pull().take().expect("first frame");
    assert_eq!(first.0, 1);
    assert_eq!(first.1.records().as_slice(), &[7, 8]);
    let second = recv.pull().take().expect("second frame");
    assert_eq!(second.1.records().as_slice(), &[9]);
    assert!(recv.pull().take().is_none());

    // Receive telemetry carries the frame's own source and sequence number,
    // not the local pull counter.
    assert_eq!(
        recv.sink().recorded().as_slice(),
        &[
            MessagesEvent {
                is_send: false,
                channel: 8,
                source: 5,
                target: 2,
                seq_no: 0,
                length: 2,
            },
            MessagesEvent {
                is_send: false,
                channel: 8,
                source: 5,
                target: 2,
                seq_no: 1,
                length: 1,
            },
        ]
    );
}

#[test]
fn puller_returns_an_unconsumed_batch_as_a_reused_buffer() {
    let incoming = vec![Message::new(1u64, Content::from_typed(vec![5u8]), 7, 0)];
    let mut recv: Puller<u64, u8, SourcePuller<Message<u64, u8>>, NullLogger> =
        Puller::new(SourcePuller::new(incoming), NullLogger::new(), 3, 0);

    // Pull the frame but leave the batch in the held slot.
    assert!(recv.pull().is_some());

    // The next pull re-wraps the held batch and hands it back to the raw
    // endpoint for reuse, stamped with this worker's index and the local
    // counter — a returned buffer, never a re-delivery.
    assert!(recv.pull().take().is_none());

    let returned = recv.endpoint().reclaimed_buffers();
    assert_eq!(returned.len(), 1);
    assert_eq!(returned[0].from, 3);
    assert_eq!(returned[0].seq, 1);
    assert_eq!(returned[0].data.records().as_slice(), &[5]);
}

#[test]
fn puller_hands_nothing_back_after_the_caller_takes_the_batch() {
    let incoming = vec![Message::new(1u64, Content::from_typed(vec![5u8]), 7, 0)];
    let mut recv: Puller<u64, u8, SourcePuller<Message<u64, u8>>, NullLogger> =
        Puller::new(SourcePuller::new(incoming), NullLogger::new(), 3, 0);

    assert!(recv.pull().take().is_some());
    assert!(recv.pull().take().is_none());
    assert!(recv.endpoint().reclaimed_buffers().is_empty());
}

#[test]
fn source_double_serves_its_queue_in_order() {
    let mut source = SourcePuller::new(vec![1u8, 2]);
    source.enqueue(3);
    assert_eq!(source.pull(None), Some(1));
    assert_eq!(source.pull(None), Some(2));
    assert_eq!(source.pull(Some(9)), Some(3));
    assert_eq!(source.pull(None), None);
    assert_eq!(source.reclaimed_buffers().as_slice(), &[9]);
}

#[test]
fn sink_double_counts_flushes_and_keeps_what_it_accepts() {
    let mut sink: SinkPusher<u8> = SinkPusher::new();
    let mut slot = Some(4u8);
    sink.push(&mut slot);
    assert!(slot.is_none());
    let mut empty: Option<u8> = None;
    sink.push(&mut empty);
    sink.push(&mut empty);
    assert_eq!(sink.sent().as_slice(), &[4]);
    assert_eq!(sink.flushed(), 2);
}

#[test]
fn event_log_records_in_order() {
    let mut log = EventLog::new();
    let event =
        MessagesEvent { is_send: true, channel: 1, source: 2, target: 3, seq_no: 4, length: 5 };
    log.log(event);
    let second = MessagesEvent { is_send: false, ..event };
    log.log(second);
    assert_eq!(log.recorded().as_slice(), &[event, second]);
}
