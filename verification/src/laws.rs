//! The laws of the contract layer, stated and proved once over the models of
//! the endpoints: whatever routing policy a contract chooses, the record
//! count per timestamp is conserved, delivery per source is in sequence
//! order, and routing is determined by the hash value alone.

use vstd::prelude::*;

use crate::comm::Push;
use crate::logging::Logger;
use crate::message::Content;
use crate::message::Message;
use crate::pact::Pusher;
use crate::pushers::batched_records_at;
use crate::pushers::records_at;
use crate::pushers::route_of;
use crate::pushers::ExchangePusher;
use crate::pushers::RoutingHash;

verus! {

/// The total record count at timestamp `t` across the raw endpoints of all
/// destinations of a fan-out.
pub open spec fn routed_records_at<T, D, P: Push<Message<T, D>>, L: Logger>(
    endpoints: Seq<Pusher<T, D, P, L>>,
    t: T,
) -> nat
    decreases endpoints.len(),
{
    if endpoints.len() == 0 {
        0
    } else {
        routed_records_at(endpoints.drop_last(), t) + records_at(
            endpoints.last().raw().accepted(),
            t,
        )
    }
}

/// Appending one frame raises the record count at its own timestamp by the
/// frame's batch length and leaves every other timestamp's count unchanged.
pub proof fn lemma_records_at_push<T, D>(frames: Seq<Message<T, D>>, m: Message<T, D>, t: T)
    ensures
        records_at(frames.push(m), t) == records_at(frames, t) + if m.time == t {
            m.data@.len()
        } else {
            0
        },
{
    assert(frames.push(m).drop_last() =~= frames);
    assert(frames.push(m).last() == m);
}

/// Appending one batch raises the pushed record count at its own timestamp by
/// the batch's length and leaves every other timestamp's count unchanged.
pub proof fn lemma_batched_records_at_push<T, D>(
    batches: Seq<(T, Content<D>)>,
    b: (T, Content<D>),
    t: T,
)
    ensures
        batched_records_at(batches.push(b), t) == batched_records_at(batches, t) + if b.0 == t {
            b.1@.len()
        } else {
            0
        },
{
    assert(batches.push(b).drop_last() =~= batches);
    assert(batches.push(b).last() == b);
}

/// Changing the endpoint at one position changes the total record count by
/// exactly the difference at that position.
proof fn lemma_routed_records_update<T, D, P: Push<Message<T, D>>, L: Logger>(
    before: Seq<Pusher<T, D, P, L>>,
    after: Seq<Pusher<T, D, P, L>>,
    i: int,
    t: T,
)
    requires
        before.len() == after.len(),
        0 <= i < before.len(),
        forall|j: int| 0 <= j < before.len() && j != i ==> after[j] == before[j],
    ensures
        routed_records_at(after, t) as int == routed_records_at(before, t) as int - records_at(
            before[i].raw().accepted(),
            t,
        ) as int + records_at(after[i].raw().accepted(), t) as int,
    decreases before.len(),
{
    if i == before.len() - 1 {
        assert(after.drop_last() =~= before.drop_last());
    } else {
        lemma_routed_records_update(before.drop_last(), after.drop_last(), i, t);
        assert(after.last() == before.last());
    }
}

/// Record-count invariance at one fan-out push: whichever destination the
/// routing chose, framing a batch there raises the total record count across
/// all destinations at the batch's timestamp by the batch's length, and
/// leaves the total at every other timestamp unchanged.
pub proof fn lemma_record_count_invariance<T, D, P: Push<Message<T, D>>, L: Logger, R: RoutingHash<T, D>>(
    before: ExchangePusher<T, D, P, L, R>,
    after: ExchangePusher<T, D, P, L, R>,
    frame: Message<T, D>,
    i: int,
    t: T,
)
    requires
        before.degree() == after.degree(),
        0 <= i < before.degree(),
        after.endpoints()[i].raw().accepted() == before.endpoints()[i].raw().accepted().push(
            frame,
        ),
        forall|j: int|
            0 <= j < before.degree() && j != i ==> after.endpoints()[j] == before.endpoints()[j],
    ensures
        routed_records_at(after.endpoints(), t) as int == routed_records_at(
            before.endpoints(),
            t,
        ) as int + if frame.time == t {
            frame.data@.len() as int
        } else {
            0
        },
{
    lemma_routed_records_update(before.endpoints(), after.endpoints(), i, t);
    lemma_records_at_push(before.endpoints()[i].raw().accepted(), frame, t);
}

/// Record-count invariance over whole histories: if the records pushed into
/// the fan-out at timestamp `t` so far equal the records routed to its
/// destinations at `t`, then after one more routed batch they are equal
/// still. Since both totals start at zero, the sum of batch lengths observed
/// across all destinations always equals the sum of batch lengths pushed.
pub proof fn lemma_record_count_conservation<T, D, P: Push<Message<T, D>>, L: Logger, R: RoutingHash<T, D>>(
    before: ExchangePusher<T, D, P, L, R>,
    after: ExchangePusher<T, D, P, L, R>,
    entry: (T, Content<D>),
    frame: Message<T, D>,
    i: int,
    t: T,
)
    requires
        after.accepted() == before.accepted().push(entry),
        frame.time == entry.0,
        frame.data == entry.1,
        before.degree() == after.degree(),
        0 <= i < before.degree(),
        after.endpoints()[i].raw().accepted() == before.endpoints()[i].raw().accepted().push(
            frame,
        ),
        forall|j: int|
            0 <= j < before.degree() && j != i ==> after.endpoints()[j] == before.endpoints()[j],
        batched_records_at(before.accepted(), t) == routed_records_at(before.endpoints(), t),
    ensures
        batched_records_at(after.accepted(), t) == routed_records_at(after.endpoints(), t),
{
    lemma_batched_records_at_push(before.accepted(), entry, t);
    lemma_record_count_invariance(before, after, frame, i, t);
}

/// Record-count invariance for the direct contract: framing one batch
/// through the send endpoint wrapper raises the record count at the batch's
/// timestamp by the batch's length, and leaves every other timestamp's count
/// unchanged — the wrapper neither splits, drops nor duplicates records.
pub proof fn lemma_record_count_direct<T, D, P: Push<Message<T, D>>, L: Logger>(
    before: Pusher<T, D, P, L>,
    after: Pusher<T, D, P, L>,
    frame: Message<T, D>,
    t: T,
)
    requires
        after.raw().accepted() == before.raw().accepted().push(frame),
    ensures
        records_at(after.raw().accepted(), t) == records_at(before.raw().accepted(), t)
            + if frame.time == t {
            frame.data@.len()
        } else {
            0
        },
{
    lemma_records_at_push(before.raw().accepted(), frame, t);
}

/// Delivery in sequence order per source: under in-order, lossless delivery
/// from the transport — the frames observed at the receiver being a prefix of
/// the frames the send endpoint accepted — the observed sequence numbers are
/// exactly `0, 1, 2, ...`: strictly increasing, with no repeats and no gaps,
/// and every observed frame carries the sender's index.
pub proof fn lemma_fifo_per_source<T, D, P: Push<Message<T, D>>, L: Logger>(
    sender: Pusher<T, D, P, L>,
    observed: Seq<Message<T, D>>,
)
    requires
        sender.wf(),
        observed.is_prefix_of(sender.raw().accepted()),
    ensures
        forall|i: int|
            0 <= i < observed.len() ==> (#[trigger] observed[i]).seq == i && observed[i].from
                == sender.source(),
        forall|i: int, j: int| 0 <= i < j < observed.len() ==> observed[i].seq < observed[j].seq,
{
    assert forall|i: int|
        0 <= i < observed.len() implies (#[trigger] observed[i]).seq == i && observed[i].from
        == sender.source() by {
        assert(observed[i] == sender.raw().accepted()[i]);
    }
}

/// Routing determinism: two pushed batches whose possible hash values all
/// agree modulo the number of destinations are routed to the same
/// destination index.
pub proof fn lemma_routing_determinism<T, D, P: Push<Message<T, D>>, L: Logger, R: RoutingHash<T, D>>(
    fan_out: ExchangePusher<T, D, P, L, R>,
    t1: T,
    d1: Content<D>,
    t2: T,
    d2: Content<D>,
    i: int,
    j: int,
)
    requires
        d1@.len() > 0,
        d2@.len() > 0,
        fan_out.selects(t1, d1, i),
        fan_out.selects(t2, d2, j),
        forall|h1: u64, h2: u64|
            #![trigger fan_out.hasher().gives(t1, d1@[0], h1), fan_out.hasher().gives(t2, d2@[0], h2)]
            fan_out.hasher().gives(t1, d1@[0], h1) && fan_out.hasher().gives(t2, d2@[0], h2)
                ==> route_of(h1, fan_out.degree()) == route_of(h2, fan_out.degree()),
    ensures
        i == j,
{
    let h1 = choose|h: u64|
        #[trigger] fan_out.hasher().gives(t1, d1@[0], h) && i == route_of(h, fan_out.degree());
    let h2 = choose|h: u64|
        #[trigger] fan_out.hasher().gives(t2, d2@[0], h) && j == route_of(h, fan_out.degree());
    assert(route_of(h1, fan_out.degree()) == route_of(h2, fan_out.degree()));
}

} // verus!
