use pact::comm::Allocate;
use pact::comm::LocalAllocator;
use pact::comm::Push;
use pact::logging::MessagesEvent;
use pact::message::Content;
use pact::pact::Exchange;
use pact::pact::ParallelizationContract;
use pact::pact::Pipeline;
use pact::pact::TimeExchange;

#[test]
fn direct_contract_delivers_in_order() {
    let mut alloc = LocalAllocator::new(0, 1);
    let (mut send, mut recv) =
        ParallelizationContract::<u64, char, LocalAllocator>::connect(Pipeline, &mut alloc, 0);

    let mut first = Some((1u64, Content::from_typed(vec!['a', 'b', 'c'])));
    send.push(&mut first);
    let mut second = Some((1u64, Content::from_typed(vec!['d'])));
    send.push(&mut second);
    let mut done: Option<(u64, Content<char>)> = None;
    send.push(&mut done);

    // The send side framed two batches with sequence numbers 0 and 1 and
    // exactly one flush; the worker's own index stamps both source and target.
    assert_eq!(send.endpoint().sent().len(), 2);
    assert_eq!(send.endpoint().flushed(), 1);
    assert_eq!(
        send.sink().recorded().as_slice(),
        &[
            MessagesEvent { is_send: true, channel: 0, source: 0, target: 0, seq_no: 0, length: 3 },
            MessagesEvent { is_send: true, channel: 0, source: 0, target: 0, seq_no: 1, length: 1 },
        ]
    );

    // The harness is the transport: move the framed batches across.
    for message in send.endpoint().sent().clone() {
        recv.endpoint_mut().enqueue(message);
    }

    let first_out = recv.pull().take().expect("first batch");
    assert_eq!(first_out.0, 1);
    assert_eq!(first_out.1.into_typed(), vec!['a', 'b', 'c']);
    let second_out = recv.pull().take().expect("second batch");
    assert_eq!(second_out.0, 1);
    assert_eq!(second_out.1.into_typed(), vec!['d']);
    assert!(recv.pull().take().is_none());

    // The receiver observed sequence numbers 0 then 1, from source 0.
    assert_eq!(
        recv.sink().recorded().as_slice(),
        &[
            MessagesEvent {
                is_send: false,
                channel: 0,
                source: 0,
                target: 0,
                seq_no: 0,
                length: 3,
            },
            MessagesEvent {
                is_send: false,
                channel: 0,
                source: 0,
                target: 0,
                seq_no: 1,
                length: 1,
            },
        ]
    );
}

#[test]
fn exchange_routes_by_hash_modulo_destinations() {
    let mut alloc = LocalAllocator::new(0, 3);
    let contract = Exchange::new(|d: &u64| *d);
    let (mut fan_out, _recv) =
        ParallelizationContract::<u64, u64, LocalAllocator>::connect(contract, &mut alloc, 7);

    for record in 0u64..6 {
        let mut slot = Some((1u64, Content::from_typed(vec![record])));
        fan_out.push(&mut slot);
    }

    let expected: [&[u64]; 3] = [&[0, 3], &[1, 4], &[2, 5]];
    for (destination, want) in fan_out.destinations().iter().zip(expected.iter()) {
        let frames = destination.endpoint().sent();
        assert_eq!(frames.len(), want.len());
        for (position, frame) in frames.iter().enumerate() {
            assert_eq!(frame.time, 1);
            assert_eq!(frame.data.records().as_slice(), &want[position..position + 1]);
            assert_eq!(frame.from, 0);
            assert_eq!(frame.seq, position);
        }
    }
}

#[test]
fn exchange_conserves_record_count_per_timestamp() {
    let mut alloc = LocalAllocator::new(0, 3);
    let contract = Exchange::new(|d: &u64| d.wrapping_mul(31));
    let (mut fan_out, _recv) =
        ParallelizationContract::<u64, u64, LocalAllocator>::connect(contract, &mut alloc, 1);

    // Batches at two timestamps, of varying length; batches stay whole.
    let batches = [
        (1u64, vec![4u64, 5, 6]),
        (2u64, vec![7u64]),
        (1u64, vec![8u64, 9]),
        (2u64, vec![10u64, 11, 12, 13]),
    ];
    for (time, records) in batches.iter() {
        let mut slot = Some((*time, Content::from_typed(records.clone())));
        fan_out.push(&mut slot);
    }

    let mut at_one = 0;
    let mut at_two = 0;
    for destination in fan_out.destinations().iter() {
        for frame in destination.endpoint().sent().iter() {
            match frame.time {
                1 => at_one += frame.data.records().len(),
                2 => at_two += frame.data.records().len(),
                _ => panic!("unexpected timestamp"),
            }
        }
    }
    assert_eq!(at_one, 5);
    assert_eq!(at_two, 5);
}

#[test]
fn exchange_routes_empty_batch_to_first_destination() {
    let mut alloc = LocalAllocator::new(0, 2);
    let contract = Exchange::new(|d: &u64| *d + 1);
    let (mut fan_out, _recv) =
        ParallelizationContract::<u64, u64, LocalAllocator>::connect(contract, &mut alloc, 0);

    let mut slot = Some((3u64, Content::from_typed(Vec::<u64>::new())));
    fan_out.push(&mut slot);

    assert_eq!(fan_out.destinations()[0].endpoint().sent().len(), 1);
    assert_eq!(fan_out.destinations()[0].endpoint().sent()[0].data.records().len(), 0);
    assert_eq!(fan_out.destinations()[1].endpoint().sent().len(), 0);
}

#[test]
fn exchange_with_one_destination_passes_everything_through() {
    let mut alloc = LocalAllocator::new(0, 1);
    let contract = Exchange::new(|d: &u64| *d);
    let (mut fan_out, _recv) =
        ParallelizationContract::<u64, u64, LocalAllocator>::connect(contract, &mut alloc, 0);

    for record in [3u64, 900, 41] {
        let mut slot = Some((5u64, Content::from_typed(vec![record])));
        fan_out.push(&mut slot);
    }
    let frames = fan_out.destinations()[0].endpoint().sent();
    assert_eq!(frames.len(), 3);
    assert_eq!(frames[0].data.records().as_slice(), &[3]);
    assert_eq!(frames[1].data.records().as_slice(), &[900]);
    assert_eq!(frames[2].data.records().as_slice(), &[41]);
}

#[test]
fn exchange_flush_reaches_every_destination() {
    let mut alloc = LocalAllocator::new(0, 3);
    let contract = Exchange::new(|d: &u64| *d);
    let (mut fan_out, _recv) =
        ParallelizationContract::<u64, u64, LocalAllocator>::connect(contract, &mut alloc, 0);

    let mut done: Option<(u64, Content<u64>)> = None;
    fan_out.push(&mut done);

    for destination in fan_out.destinations().iter() {
        assert_eq!(destination.endpoint().sent().len(), 0);
        assert_eq!(destination.endpoint().flushed(), 1);
        assert!(destination.sink().recorded().is_empty());
    }
}

#[test]
fn time_exchange_routes_by_time_and_data() {
    let mut alloc = LocalAllocator::new(0, 2);
    let contract = TimeExchange::new(|t: &u64, d: &u64| *t + *d);
    let (mut fan_out, _recv) =
        ParallelizationContract::<u64, u64, LocalAllocator>::connect(contract, &mut alloc, 0);

    // hash = time + record: (1, 1) is even, (2, 1) is odd — the timestamp
    // alone moves the same record to the other destination.
    let mut first = Some((1u64, Content::from_typed(vec![1u64])));
    fan_out.push(&mut first);
    let mut second = Some((2u64, Content::from_typed(vec![1u64])));
    fan_out.push(&mut second);

    assert_eq!(fan_out.destinations()[0].endpoint().sent().len(), 1);
    assert_eq!(fan_out.destinations()[0].endpoint().sent()[0].time, 1);
    assert_eq!(fan_out.destinations()[1].endpoint().sent().len(), 1);
    assert_eq!(fan_out.destinations()[1].endpoint().sent()[0].time, 2);
}

#[test]
fn exchange_stamps_channel_and_targets() {
    let mut alloc = LocalAllocator::new(0, 2);
    let contract = Exchange::new(|d: &u64| *d);
    let (mut fan_out, _recv) =
        ParallelizationContract::<u64, u64, LocalAllocator>::connect(contract, &mut alloc, 9);

    let mut slot = Some((1u64, Content::from_typed(vec![1u64])));
    fan_out.push(&mut slot);

    // Record 1 of 2 destinations goes to destination 1; the send event
    // carries the channel, the source, and that destination.
    assert_eq!(
        fan_out.destinations()[1].sink().recorded().as_slice(),
        &[MessagesEvent { is_send: true, channel: 9, source: 0, target: 1, seq_no: 0, length: 1 }]
    );
    assert!(fan_out.destinations()[0].sink().recorded().is_empty());
}

#[test]
fn allocator_reports_index_and_peers() {
    let mut alloc = LocalAllocator::new(2, 5);
    assert_eq!(Allocate::<u64>::index(&alloc), 2);
    assert_eq!(Allocate::<u64>::peers(&alloc), 5);
    let (senders, _receiver) = Allocate::<u64>::allocate(&mut alloc);
    assert_eq!(senders.len(), 5);
    for sender in senders.iter() {
        assert!(sender.sent().is_empty());
        assert_eq!(sender.flushed(), 0);
    }
}
