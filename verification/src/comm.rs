//! The raw transport interface that contracts build on.
//!
//! The cross-worker transport itself is a collaborator, not part of this
//! layer: all this layer asks of it is the `Push` and `Pull` interfaces below.
//! Delivery between a matched pair of endpoints is the transport's business;
//! per endpoint, the model is a history: what a send endpoint has accepted
//! (and how often it was told to flush), and what a receive endpoint has
//! handed out. A FIFO, lossless transport is one whose receive history is
//! always a prefix of the matching send history; the laws of this crate are
//! stated under that assumption.
//!
//! The module also provides one in-process implementation of each interface,
//! used as the loopback transport of a single worker and as the test double
//! of a remote one.

use vstd::prelude::*;

use crate::logging::EventLog;
use crate::logging::Logger;
use crate::logging::MessagesEvent;

verus! {

/// A raw send endpoint for values of type `M`.
///
/// Pushing `Some(m)` hands `m` to the transport; the endpoint may hand back a
/// spare value in the slot, whose storage the caller is free to reuse.
/// Pushing `None` signals that no more data will come: the transport must
/// propagate one flush to its peer, and nothing is enqueued.
pub trait Push<M>: Sized {
    /// The values this endpoint has accepted, oldest first.
    spec fn accepted(&self) -> Seq<M>;

    /// How many flush signals this endpoint has received.
    spec fn flushes(&self) -> nat;

    /// Whether the endpoint can take one more call.
    spec fn ready(&self) -> bool;

    /// The spent buffer this endpoint will hand back for reuse on its next
    /// push, if it holds one.
    spec fn spare(&self) -> Option<M>;

    /// Hands the slot's value to the transport, or signals a flush when the
    /// slot is empty. Whatever the slot holds afterwards is a spare buffer
    /// handed back for reuse, never data.
    fn push(&mut self, element: &mut Option<M>)
        requires
            old(self).ready(),
        ensures
            old(element).is_some() ==> {
                &&& final(self).accepted() == old(self).accepted().push(old(element).unwrap())
                &&& final(self).flushes() == old(self).flushes()
                &&& *final(element) == old(self).spare()
            },
            old(element).is_none() ==> {
                &&& final(self).accepted() == old(self).accepted()
                &&& final(self).flushes() == old(self).flushes() + 1
                &&& final(element).is_none()
            },
    ;
}

/// A raw receive endpoint for values of type `M`.
///
/// Pulling is an exchange: the caller hands back the buffer it finished with
/// (if any) and receives the next available value (if any). An empty result
/// means nothing is available right now, not an error, and never consumes
/// anything.
pub trait Pull<M>: Sized {
    /// The values this endpoint has handed out, oldest first.
    spec fn delivered(&self) -> Seq<M>;

    /// The spent buffers handed back to this endpoint for reuse.
    spec fn reclaimed(&self) -> Seq<M>;

    /// Hands `recycled` back for reuse and takes the next available value.
    fn pull(&mut self, recycled: Option<M>) -> (r: Option<M>)
        ensures
            final(self).reclaimed() == if recycled.is_some() {
                old(self).reclaimed().push(recycled.unwrap())
            } else {
                old(self).reclaimed()
            },
            r.is_some() ==> final(self).delivered() == old(self).delivered().push(r.unwrap()),
            r.is_none() ==> final(self).delivered() == old(self).delivered(),
    ;
}

/// An in-process send endpoint: it keeps what it accepts, counts its flushes,
/// and can be primed with one spare buffer to hand back on the next push.
pub struct SinkPusher<M> {
    received: Vec<M>,
    flush_count: usize,
    spare: Option<M>,
}

impl<M> SinkPusher<M> {
    /// A fresh endpoint: nothing accepted, no flushes, no spare.
    pub fn new() -> (r: SinkPusher<M>)
        ensures
            r.accepted() == Seq::<M>::empty(),
            r.flushes() == 0,
            r.spare().is_none(),
    {
        SinkPusher { received: Vec::new(), flush_count: 0, spare: None }
    }

    /// A fresh endpoint primed with one spare buffer, which the next push
    /// will hand back for reuse.
    pub fn with_spare(spare: M) -> (r: SinkPusher<M>)
        ensures
            r.accepted() == Seq::<M>::empty(),
            r.flushes() == 0,
            r.spare() == Some(spare),
    {
        SinkPusher { received: Vec::new(), flush_count: 0, spare: Some(spare) }
    }

    /// The values accepted so far, oldest first.
    pub fn sent(&self) -> (r: &Vec<M>)
        ensures
            r@ == self.accepted(),
    {
        &self.received
    }

    /// How many flush signals arrived so far.
    pub fn flushed(&self) -> (r: usize)
        ensures
            r == self.flushes(),
    {
        self.flush_count
    }
}

impl<M> Push<M> for SinkPusher<M> {
    closed spec fn accepted(&self) -> Seq<M> {
        self.received@
    }

    closed spec fn flushes(&self) -> nat {
        self.flush_count as nat
    }

    open spec fn ready(&self) -> bool {
        self.flushes() < usize::MAX
    }

    closed spec fn spare(&self) -> Option<M> {
        self.spare
    }

    fn push(&mut self, element: &mut Option<M>)
        ensures
            old(element).is_some() ==> final(self).spare().is_none(),
            old(element).is_none() ==> final(self).spare() == old(self).spare(),
    {
        let taken = element.take();
        match taken {
            Some(m) => {
                self.received.push(m);
                *element = self.spare.take();
            }
            None => {
                self.flush_count = self.flush_count + 1;
            }
        }
    }
}

/// An in-process receive endpoint: it serves a queue of pending values in
/// order and keeps the spent buffers handed back to it.
pub struct SourcePuller<M> {
    queue: Vec<M>,
    handed: Ghost<Seq<M>>,
    returned: Vec<M>,
}

impl<M> SourcePuller<M> {
    /// A fresh endpoint that will serve `queue` in order.
    pub fn new(queue: Vec<M>) -> (r: SourcePuller<M>)
        ensures
            r.pending() == queue@,
            r.delivered() == Seq::<M>::empty(),
            r.reclaimed() == Seq::<M>::empty(),
    {
        SourcePuller { queue, handed: Ghost(Seq::empty()), returned: Vec::new() }
    }

    /// The values not yet handed out, in the order they will be served.
    pub closed spec fn pending(&self) -> Seq<M> {
        self.queue@
    }

    /// Appends one more value for this endpoint to serve; how values arrive
    /// here is the transport's business, not this layer's.
    pub fn enqueue(&mut self, value: M)
        ensures
            final(self).pending() == old(self).pending().push(value),
            final(self).delivered() == old(self).delivered(),
            final(self).reclaimed() == old(self).reclaimed(),
    {
        self.queue.push(value);
    }

    /// The spent buffers handed back so far, oldest first.
    pub fn reclaimed_buffers(&self) -> (r: &Vec<M>)
        ensures
            r@ == self.reclaimed(),
    {
        &self.returned
    }
}

impl<M> Pull<M> for SourcePuller<M> {
    closed spec fn delivered(&self) -> Seq<M> {
        self.handed@
    }

    closed spec fn reclaimed(&self) -> Seq<M> {
        self.returned@
    }

    fn pull(&mut self, recycled: Option<M>) -> (r: Option<M>)
        ensures
            old(self).pending().len() > 0 ==> {
                &&& r == Some(old(self).pending()[0])
                &&& final(self).pending() == old(self).pending().drop_first()
            },
            old(self).pending().len() == 0 ==> {
                &&& r.is_none()
                &&& final(self).pending() == old(self).pending()
            },
    {
        if let Some(m) = recycled {
            self.returned.push(m);
        }
        if self.queue.len() > 0 {
            let m = self.queue.remove(0);
            self.handed = Ghost(self.handed@.push(m));
            proof {
                assert(self.queue@ =~= old(self).queue@.drop_first());
            }
            Some(m)
        } else {
            None
        }
    }
}

/// The environment a channel is built from: it allocates matched raw
/// endpoint pairs, knows this worker's index among its peers, and supplies
/// the telemetry sink endpoints report to.
///
/// `allocate` yields one send endpoint per peer plus this worker's receive
/// endpoint for a cross-worker channel; `allocate_thread` yields the
/// loopback pair of a single worker, bypassing the cross-worker machinery.
/// All endpoints come fresh: empty histories, no flushes.
pub trait Allocate<M>: Sized {
    /// The raw send endpoint type produced.
    type Sender: Push<M>;

    /// The raw receive endpoint type produced.
    type Receiver: Pull<M>;

    /// The telemetry sink type supplied.
    type Telemetry: Logger;

    /// This worker's index.
    spec fn worker(&self) -> usize;

    /// How many workers participate.
    spec fn peer_count(&self) -> usize;

    /// This worker's index.
    fn index(&self) -> (r: usize)
        ensures
            r == self.worker(),
    ;

    /// How many workers participate.
    fn peers(&self) -> (r: usize)
        ensures
            r == self.peer_count(),
    ;

    /// Allocates a cross-worker channel: one fresh send endpoint per peer,
    /// and this worker's fresh receive endpoint.
    fn allocate(&mut self) -> (r: (Vec<Self::Sender>, Self::Receiver))
        ensures
            final(self).worker() == old(self).worker(),
            final(self).peer_count() == old(self).peer_count(),
            r.0@.len() == old(self).peer_count(),
            forall|i: int|
                0 <= i < r.0@.len() ==> {
                    &&& (#[trigger] r.0@[i]).accepted() == Seq::<M>::empty()
                    &&& r.0@[i].flushes() == 0
                    &&& r.0@[i].ready()
                },
            r.1.delivered() == Seq::<M>::empty(),
            r.1.reclaimed() == Seq::<M>::empty(),
    ;

    /// Allocates the loopback pair of a single worker.
    fn allocate_thread(&mut self) -> (r: (Self::Sender, Self::Receiver))
        ensures
            final(self).worker() == old(self).worker(),
            final(self).peer_count() == old(self).peer_count(),
            r.0.accepted() == Seq::<M>::empty(),
            r.0.flushes() == 0,
            r.0.ready(),
            r.1.delivered() == Seq::<M>::empty(),
            r.1.reclaimed() == Seq::<M>::empty(),
    ;

    /// A fresh handle on the telemetry sink.
    fn logger(&mut self) -> (r: Self::Telemetry)
        ensures
            final(self).worker() == old(self).worker(),
            final(self).peer_count() == old(self).peer_count(),
            r.events() == Seq::<MessagesEvent>::empty(),
    ;
}

/// The in-process environment: endpoints are the doubles above, and each
/// telemetry handle is its own recording sink, so a harness can see exactly
/// what each endpoint emitted.
pub struct LocalAllocator {
    index: usize,
    peers: usize,
}

impl LocalAllocator {
    /// An environment for worker `index` of `peers` workers.
    pub fn new(index: usize, peers: usize) -> (r: LocalAllocator)
        requires
            0 < peers,
            index < peers,
        ensures
            r.worker_index() == index,
            r.worker_peers() == peers,
    {
        LocalAllocator { index, peers }
    }

    /// This worker's index.
    pub closed spec fn worker_index(&self) -> usize {
        self.index
    }

    /// How many workers participate.
    pub closed spec fn worker_peers(&self) -> usize {
        self.peers
    }
}

impl<M> Allocate<M> for LocalAllocator {
    type Sender = SinkPusher<M>;

    type Receiver = SourcePuller<M>;

    type Telemetry = EventLog;

    closed spec fn worker(&self) -> usize {
        self.index
    }

    closed spec fn peer_count(&self) -> usize {
        self.peers
    }

    fn index(&self) -> (r: usize) {
        self.index
    }

    fn peers(&self) -> (r: usize) {
        self.peers
    }

    fn allocate(&mut self) -> (r: (Vec<SinkPusher<M>>, SourcePuller<M>)) {
        let mut senders: Vec<SinkPusher<M>> = Vec::new();
        let mut i: usize = 0;
        while i < self.peers
            invariant
                0 <= i <= self.peers,
                senders@.len() == i,
                *self == *old(self),
                forall|j: int|
                    0 <= j < senders@.len() ==> {
                        &&& (#[trigger] senders@[j]).accepted() == Seq::<M>::empty()
                        &&& senders@[j].flushes() == 0
                        &&& senders@[j].ready()
                    },
            decreases self.peers - i,
        {
            senders.push(SinkPusher::new());
            i = i + 1;
        }
        (senders, SourcePuller::new(Vec::new()))
    }

    fn allocate_thread(&mut self) -> (r: (SinkPusher<M>, SourcePuller<M>)) {
        (SinkPusher::new(), SourcePuller::new(Vec::new()))
    }

    fn logger(&mut self) -> (r: EventLog) {
        EventLog::new()
    }
}

} // verus!
