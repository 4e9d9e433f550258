//! Parallelization contracts and the endpoint wrappers they build.
//!
//! A contract allocates one matched pair of endpoints per logical channel:
//! a send endpoint that frames, sequences and routes batches, and a receive
//! endpoint that unwraps them again. A contract may freely redistribute which
//! worker observes a batch, but must never alter how many records exist at a
//! given timestamp across all receive endpoints of the channel; the
//! progress-tracking runtime assumes that count is independent of the
//! contract chosen.

use core::marker::PhantomData;
use vstd::prelude::*;

use crate::comm::Allocate;
use crate::comm::Pull;
use crate::comm::Push;
use crate::logging::Logger;
use crate::logging::MessagesEvent;
use crate::message::Content;
use crate::message::Message;
use crate::pushers::ExchangePusher;
use crate::pushers::RoutingHash;

verus! {

/// The send endpoint wrapper: turns a raw endpoint for `Message<T, D>` into
/// an endpoint for `(T, Content<D>)` slots.
///
/// A full slot is framed with this worker's index and a running sequence
/// number, one send telemetry event is emitted, and whatever buffer the raw
/// endpoint hands back is unwrapped into the slot for reuse. An empty slot is
/// forwarded as a flush: no frame is built and no telemetry is emitted.
pub struct Pusher<T, D, P: Push<Message<T, D>>, L: Logger> {
    pusher: P,
    channel: usize,
    counter: usize,
    source: usize,
    target: usize,
    logger: L,
    phantom: PhantomData<(T, D)>,
}

impl<T, D, P: Push<Message<T, D>>, L: Logger> Pusher<T, D, P, L> {
    /// The wrapped raw endpoint.
    pub closed spec fn raw(&self) -> P {
        self.pusher
    }

    /// The injected telemetry sink.
    pub closed spec fn telemetry(&self) -> L {
        self.logger
    }

    /// The channel identifier stamped into every frame and event.
    pub closed spec fn channel(&self) -> usize {
        self.channel
    }

    /// The sequence number the next frame will carry.
    pub closed spec fn counter(&self) -> usize {
        self.counter
    }

    /// The index of the worker that owns this endpoint.
    pub closed spec fn source(&self) -> usize {
        self.source
    }

    /// The index of the worker this endpoint addresses.
    pub closed spec fn target(&self) -> usize {
        self.target
    }

    /// The frames handed to the raw endpoint carry exactly the sequence
    /// numbers `0, 1, 2, ...` in order, and all carry this worker's index.
    pub open spec fn wf(&self) -> bool {
        &&& self.raw().accepted().len() == self.counter()
        &&& forall|i: int|
            0 <= i < self.raw().accepted().len() ==> {
                &&& (#[trigger] self.raw().accepted()[i]).seq == i
                &&& self.raw().accepted()[i].from == self.source()
            }
    }

    /// The telemetry event this endpoint emits when it frames a batch of
    /// `len` records next.
    pub open spec fn send_event(&self, len: nat) -> MessagesEvent {
        MessagesEvent {
            is_send: true,
            channel: self.channel(),
            source: self.source(),
            target: self.target(),
            seq_no: self.counter(),
            length: len as usize,
        }
    }

    /// Wraps a fresh raw endpoint, with framing metadata and a telemetry
    /// sink. Sequence numbers for the channel start at zero.
    pub fn new(pusher: P, logger: L, source: usize, target: usize, channel: usize) -> (r:
        Pusher<T, D, P, L>)
        requires
            pusher.accepted() == Seq::<Message<T, D>>::empty(),
        ensures
            r.raw() == pusher,
            r.telemetry() == logger,
            r.source() == source,
            r.target() == target,
            r.channel() == channel,
            r.counter() == 0,
            r.wf(),
    {
        Pusher { pusher, channel, counter: 0, source, target, logger, phantom: PhantomData }
    }

    /// A view of the wrapped raw endpoint, so a harness can see what was
    /// framed and forwarded.
    pub fn endpoint(&self) -> (r: &P)
        ensures
            *r == self.raw(),
    {
        &self.pusher
    }

    /// A view of the telemetry sink, so a harness can see what was emitted.
    pub fn sink(&self) -> (r: &L)
        ensures
            *r == self.telemetry(),
    {
        &self.logger
    }
}

impl<T, D, P: Push<Message<T, D>>, L: Logger> Push<(T, Content<D>)> for Pusher<T, D, P, L> {
    open spec fn accepted(&self) -> Seq<(T, Content<D>)> {
        self.raw().accepted().map_values(|m: Message<T, D>| (m.time, m.data))
    }

    open spec fn flushes(&self) -> nat {
        self.raw().flushes()
    }

    open spec fn ready(&self) -> bool {
        &&& self.wf()
        &&& self.counter() < usize::MAX
        &&& self.raw().ready()
    }

    open spec fn spare(&self) -> Option<(T, Content<D>)> {
        match self.raw().spare() {
            Some(m) => Some((m.time, m.data)),
            None => None,
        }
    }

    fn push(&mut self, pair: &mut Option<(T, Content<D>)>)
        ensures
            final(self).channel() == old(self).channel(),
            final(self).source() == old(self).source(),
            final(self).target() == old(self).target(),
            final(self).wf(),
            old(pair).is_some() ==> {
                &&& final(self).counter() == old(self).counter() + 1
                &&& final(self).raw().accepted() == old(self).raw().accepted().push(
                    Message {
                        time: old(pair).unwrap().0,
                        data: old(pair).unwrap().1,
                        from: old(self).source(),
                        seq: old(self).counter(),
                    },
                )
                &&& final(self).raw().flushes() == old(self).raw().flushes()
                &&& final(self).telemetry().events() == old(self).telemetry().events().push(
                    old(self).send_event(old(pair).unwrap().1@.len()),
                )
            },
            old(pair).is_none() ==> {
                &&& final(self).counter() == old(self).counter()
                &&& final(self).raw().accepted() == old(self).raw().accepted()
                &&& final(self).raw().flushes() == old(self).raw().flushes() + 1
                &&& final(self).telemetry().events() == old(self).telemetry().events()
            },
    {
        let taken = pair.take();
        match taken {
            Some((time, data)) => {
                let length = data.len();
                self.logger.log(
                    MessagesEvent {
                        is_send: true,
                        channel: self.channel,
                        source: self.source,
                        target: self.target,
                        seq_no: self.counter,
                        length,
                    },
                );
                let mut message = Some(Message::new(time, data, self.source, self.counter));
                let ghost frame = message.unwrap();
                self.counter = self.counter + 1;
                self.pusher.push(&mut message);
                proof {
                    assert(self.accepted() =~= old(self).accepted().push(
                        (frame.time, frame.data),
                    ));
                    assert forall|i: int| 0 <= i < self.pusher.accepted().len() implies {
                        &&& (#[trigger] self.pusher.accepted()[i]).seq == i
                        &&& self.pusher.accepted()[i].from == self.source
                    } by {
                        if i < old(self).pusher.accepted().len() {
                            assert(self.pusher.accepted()[i] == old(self).pusher.accepted()[i]);
                        } else {
                            assert(self.pusher.accepted()[i] == frame);
                        }
                    }
                }
                *pair = match message {
                    Some(x) => Some((x.time, x.data)),
                    None => None,
                };
            }
            None => {
                let mut flush: Option<Message<T, D>> = None;
                self.pusher.push(&mut flush);
            }
        }
    }
}

/// The receive endpoint wrapper: turns a raw endpoint for `Message<T, D>`
/// into an endpoint for `(T, Content<D>)` slots.
///
/// Each pull first re-wraps the previously held batch, if the caller left
/// one, as a frame carrying this worker's index and an independently running
/// local counter, and hands it back to the raw endpoint for reuse; that frame
/// is a returned buffer, never a re-delivery. It then takes the next incoming
/// frame, if one is available, emits one receive telemetry event carrying the
/// frame's own origin and sequence number, and unwraps it into the held slot,
/// a reference to which is returned so the caller can take the batch without
/// a copy.
pub struct Puller<T, D, Q: Pull<Message<T, D>>, L: Logger> {
    puller: Q,
    current: Option<(T, Content<D>)>,
    channel: usize,
    counter: usize,
    index: usize,
    logger: L,
}

impl<T, D, Q: Pull<Message<T, D>>, L: Logger> Puller<T, D, Q, L> {
    /// The wrapped raw endpoint.
    pub closed spec fn raw(&self) -> Q {
        self.puller
    }

    /// The injected telemetry sink.
    pub closed spec fn telemetry(&self) -> L {
        self.logger
    }

    /// The channel identifier stamped into every event.
    pub closed spec fn channel(&self) -> usize {
        self.channel
    }

    /// The local counter stamped onto returned buffers. It is independent of
    /// the sequence numbers read from incoming frames.
    pub closed spec fn counter(&self) -> usize {
        self.counter
    }

    /// The index of the worker that owns this endpoint.
    pub closed spec fn index(&self) -> usize {
        self.index
    }

    /// The batch held between pulls: delivered to the caller but not yet
    /// taken, or already taken and so absent.
    pub closed spec fn held(&self) -> Option<(T, Content<D>)> {
        self.current
    }

    /// The telemetry event this endpoint emits when frame `m` arrives.
    pub open spec fn recv_event(&self, m: Message<T, D>) -> MessagesEvent {
        MessagesEvent {
            is_send: false,
            channel: self.channel(),
            source: m.from,
            target: self.index(),
            seq_no: m.seq,
            length: m.data@.len() as usize,
        }
    }

    /// Wraps a fresh raw endpoint, with this worker's index, the channel
    /// identifier, and a telemetry sink.
    pub fn new(puller: Q, logger: L, index: usize, channel: usize) -> (r: Puller<T, D, Q, L>)
        ensures
            r.raw() == puller,
            r.telemetry() == logger,
            r.index() == index,
            r.channel() == channel,
            r.counter() == 0,
            r.held().is_none(),
    {
        Puller { puller, channel, current: None, counter: 0, index, logger }
    }

    /// A view of the wrapped raw endpoint, so a harness can see what was
    /// handed back for reuse.
    pub fn endpoint(&self) -> (r: &Q)
        ensures
            *r == self.raw(),
    {
        &self.puller
    }

    /// The wrapped raw endpoint, exclusively: the harness that owns delivery
    /// feeds incoming frames through this.
    pub fn endpoint_mut(&mut self) -> (r: &mut Q)
        ensures
            *r == old(self).raw(),
            final(self).raw() == *final(r),
            final(self).held() == old(self).held(),
            final(self).counter() == old(self).counter(),
            final(self).index() == old(self).index(),
            final(self).channel() == old(self).channel(),
            final(self).telemetry() == old(self).telemetry(),
    {
        &mut self.puller
    }

    /// A view of the telemetry sink, so a harness can see what was emitted.
    pub fn sink(&self) -> (r: &L)
        ensures
            *r == self.telemetry(),
    {
        &self.logger
    }

    /// Exchanges the previously held batch for the next available one, and
    /// exposes the held slot to the caller.
    pub fn pull(&mut self) -> (r: &mut Option<(T, Content<D>)>)
        requires
            old(self).counter() < usize::MAX,
        ensures
            final(self).channel() == old(self).channel(),
            final(self).index() == old(self).index(),
            final(self).counter() == old(self).counter() + 1,
            final(self).held() == *final(r),
            final(self).raw().reclaimed() == match old(self).held() {
                Some((t, d)) => old(self).raw().reclaimed().push(
                    Message { time: t, data: d, from: old(self).index(), seq: old(self).counter() },
                ),
                None => old(self).raw().reclaimed(),
            },
            final(self).raw().delivered() == old(self).raw().delivered() ==> {
                &&& (*r).is_none()
                &&& final(self).telemetry().events() == old(self).telemetry().events()
            },
            final(self).raw().delivered() != old(self).raw().delivered() ==> {
                let m = final(self).raw().delivered().last();
                &&& final(self).raw().delivered() == old(self).raw().delivered().push(m)
                &&& *r == Some((m.time, m.data))
                &&& final(self).telemetry().events() == old(self).telemetry().events().push(
                    old(self).recv_event(m),
                )
            },
    {
        let taken = self.current.take();
        let previous = match taken {
            Some((time, data)) => Some(Message::new(time, data, self.index, self.counter)),
            None => None,
        };
        self.counter = self.counter + 1;
        let received = self.puller.pull(previous);
        match received {
            Some(message) => {
                proof {
                    assert(self.puller.delivered().len() == old(
                        self,
                    ).puller.delivered().len() + 1);
                }
                let length = message.data.len();
                self.logger.log(
                    MessagesEvent {
                        is_send: false,
                        channel: self.channel,
                        source: message.from,
                        target: self.index,
                        seq_no: message.seq,
                        length,
                    },
                );
                self.current = Some((message.time, message.data));
            }
            None => {},
        }
        &mut self.current
    }
}

/// A routing hash over the data alone: wraps a caller-supplied function of
/// one record so the fan-out endpoint can consume it.
pub struct DataHash<T, D, F: Fn(&D) -> u64> {
    func: F,
    phantom: PhantomData<(T, D)>,
}

impl<T, D, F: Fn(&D) -> u64> DataHash<T, D, F> {
    /// The wrapped function.
    pub closed spec fn func(&self) -> F {
        self.func
    }

    /// Wraps `func`.
    pub fn new(func: F) -> (r: DataHash<T, D, F>)
        ensures
            r.func() == func,
    {
        DataHash { func, phantom: PhantomData }
    }
}

impl<T, D, F: Fn(&D) -> u64> RoutingHash<T, D> for DataHash<T, D, F> {
    open spec fn admits(&self, t: T, d: D) -> bool {
        call_requires(self.func(), (&d,))
    }

    open spec fn gives(&self, t: T, d: D, h: u64) -> bool {
        call_ensures(self.func(), (&d,), h)
    }

    fn hash(&self, t: &T, d: &D) -> (h: u64) {
        (self.func)(d)
    }
}

/// What `DataHash` admits and gives, spelled out for callers: exactly what
/// the wrapped function requires and ensures, the timestamp playing no part.
pub proof fn lemma_data_hash_spec<T, D, F: Fn(&D) -> u64>(
    hash: DataHash<T, D, F>,
    t: T,
    d: D,
    h: u64,
)
    ensures
        hash.admits(t, d) == call_requires(hash.func(), (&d,)),
        hash.gives(t, d, h) == call_ensures(hash.func(), (&d,), h),
{
}

/// A routing hash over timestamp and data together: wraps a caller-supplied
/// function of both so the fan-out endpoint can consume it.
pub struct TimeDataHash<T, D, F: Fn(&T, &D) -> u64> {
    func: F,
    phantom: PhantomData<(T, D)>,
}

impl<T, D, F: Fn(&T, &D) -> u64> TimeDataHash<T, D, F> {
    /// The wrapped function.
    pub closed spec fn func(&self) -> F {
        self.func
    }

    /// Wraps `func`.
    pub fn new(func: F) -> (r: TimeDataHash<T, D, F>)
        ensures
            r.func() == func,
    {
        TimeDataHash { func, phantom: PhantomData }
    }
}

impl<T, D, F: Fn(&T, &D) -> u64> RoutingHash<T, D> for TimeDataHash<T, D, F> {
    open spec fn admits(&self, t: T, d: D) -> bool {
        call_requires(self.func(), (&t, &d))
    }

    open spec fn gives(&self, t: T, d: D, h: u64) -> bool {
        call_ensures(self.func(), (&t, &d), h)
    }

    fn hash(&self, t: &T, d: &D) -> (h: u64) {
        (self.func)(t, d)
    }
}

/// What `TimeDataHash` admits and gives, spelled out for callers: exactly
/// what the wrapped function requires and ensures of the pair.
pub proof fn lemma_time_data_hash_spec<T, D, F: Fn(&T, &D) -> u64>(
    hash: TimeDataHash<T, D, F>,
    t: T,
    d: D,
    h: u64,
)
    ensures
        hash.admits(t, d) == call_requires(hash.func(), (&t, &d)),
        hash.gives(t, d, h) == call_ensures(hash.func(), (&t, &d), h),
{
}

/// A parallelization contract allocates one matched pair of send and receive
/// endpoints per logical channel. It is consumed by the allocation: a channel
/// identifier is used once.
///
/// Every contract yields a send endpoint with empty history: whatever the
/// routing policy, nothing has moved before the first push.
pub trait ParallelizationContract<T, D, A: Allocate<Message<T, D>>>: Sized {
    /// The send endpoint type produced by this contract.
    type Pusher: Push<(T, Content<D>)>;

    /// The receive endpoint type produced by this contract.
    type Puller;

    /// Allocates the matched endpoint pair for channel `identifier`.
    fn connect(self, allocator: &mut A, identifier: usize) -> (r: (Self::Pusher, Self::Puller))
        requires
            old(allocator).peer_count() > 0,
        ensures
            r.0.accepted() == Seq::<(T, Content<D>)>::empty(),
            r.0.flushes() == 0,
    ;
}

/// The direct contract: sender and receiver are the same worker, so the pair
/// is built on the worker's own loopback queue, bypassing the cross-worker
/// machinery. Both endpoints are stamped with this worker's index as source
/// and target.
pub struct Pipeline;

impl<T, D, A: Allocate<Message<T, D>>> ParallelizationContract<T, D, A> for Pipeline {
    type Pusher = Pusher<T, D, A::Sender, A::Telemetry>;

    type Puller = Puller<T, D, A::Receiver, A::Telemetry>;

    fn connect(self, allocator: &mut A, identifier: usize) -> (r: (Self::Pusher, Self::Puller))
        ensures
            r.0.source() == old(allocator).worker(),
            r.0.target() == old(allocator).worker(),
            r.0.channel() == identifier,
            r.0.counter() == 0,
            r.0.wf(),
            r.0.raw().accepted() == Seq::<Message<T, D>>::empty(),
            r.0.raw().flushes() == 0,
            r.0.raw().ready(),
            r.0.telemetry().events() == Seq::<MessagesEvent>::empty(),
            r.1.index() == old(allocator).worker(),
            r.1.channel() == identifier,
            r.1.counter() == 0,
            r.1.held().is_none(),
            r.1.raw().delivered() == Seq::<Message<T, D>>::empty(),
            r.1.raw().reclaimed() == Seq::<Message<T, D>>::empty(),
            r.1.telemetry().events() == Seq::<MessagesEvent>::empty(),
    {
        let index = allocator.index();
        let (sender, receiver) = allocator.allocate_thread();
        let send_log = allocator.logger();
        let recv_log = allocator.logger();
        let sender = Pusher::new(sender, send_log, index, index, identifier);
        let receiver = Puller::new(receiver, recv_log, index, identifier);
        proof {
            assert(sender.accepted() =~= Seq::<(T, Content<D>)>::empty());
        }
        (sender, receiver)
    }
}

/// The hash-exchange contract: routes each batch to the worker selected by a
/// caller-supplied hash of the data, reduced modulo the number of workers.
pub struct Exchange<D, F: Fn(&D) -> u64> {
    hash_func: F,
    phantom: PhantomData<D>,
}

impl<D, F: Fn(&D) -> u64> Exchange<D, F> {
    /// The distribution function.
    pub closed spec fn hasher(&self) -> F {
        self.hash_func
    }

    /// Allocates a new `Exchange` pact from a distribution function.
    pub fn new(func: F) -> (r: Exchange<D, F>)
        ensures
            r.hasher() == func,
    {
        Exchange { hash_func: func, phantom: PhantomData }
    }
}

/// Wraps the raw send endpoints of a freshly allocated channel: endpoint `i`
/// addresses worker `i`, and all are stamped with this worker's index as the
/// source and with the channel identifier.
fn wrap_senders<T, D, A: Allocate<Message<T, D>>>(
    allocator: &mut A,
    senders: Vec<A::Sender>,
    index: usize,
    identifier: usize,
) -> (r: Vec<Pusher<T, D, A::Sender, A::Telemetry>>)
    requires
        forall|j: int|
            0 <= j < senders@.len() ==> {
                &&& (#[trigger] senders@[j]).accepted() == Seq::<Message<T, D>>::empty()
                &&& senders@[j].flushes() == 0
                &&& senders@[j].ready()
            },
    ensures
        final(allocator).worker() == old(allocator).worker(),
        final(allocator).peer_count() == old(allocator).peer_count(),
        r@.len() == senders@.len(),
        forall|j: int|
            0 <= j < r@.len() ==> {
                &&& (#[trigger] r@[j]).wf()
                &&& r@[j].counter() == 0
                &&& r@[j].source() == index
                &&& r@[j].target() == j
                &&& r@[j].channel() == identifier
                &&& r@[j].raw().accepted() == Seq::<Message<T, D>>::empty()
                &&& r@[j].raw().flushes() == 0
                &&& r@[j].raw().ready()
                &&& r@[j].telemetry().events() == Seq::<MessagesEvent>::empty()
            },
{
    let ghost initial = senders@;
    let mut senders = senders;
    let mut wrapped: Vec<Pusher<T, D, A::Sender, A::Telemetry>> = Vec::new();
    let mut i: usize = 0;
    while senders.len() > 0
        invariant
            i == wrapped@.len(),
            senders@.len() + i == initial.len(),
            forall|j: int| 0 <= j < senders@.len() ==> senders@[j] == initial[j + i],
            forall|j: int|
                0 <= j < initial.len() ==> {
                    &&& (#[trigger] initial[j]).accepted() == Seq::<Message<T, D>>::empty()
                    &&& initial[j].flushes() == 0
                    &&& initial[j].ready()
                },
            allocator.worker() == old(allocator).worker(),
            allocator.peer_count() == old(allocator).peer_count(),
            forall|j: int|
                0 <= j < wrapped@.len() ==> {
                    &&& (#[trigger] wrapped@[j]).wf()
                    &&& wrapped@[j].counter() == 0
                    &&& wrapped@[j].source() == index
                    &&& wrapped@[j].target() == j
                    &&& wrapped@[j].channel() == identifier
                    &&& wrapped@[j].raw().accepted() == Seq::<Message<T, D>>::empty()
                    &&& wrapped@[j].raw().flushes() == 0
                    &&& wrapped@[j].raw().ready()
                    &&& wrapped@[j].telemetry().events() == Seq::<MessagesEvent>::empty()
                },
        decreases senders@.len(),
    {
        let sender = senders.remove(0);
        let log = allocator.logger();
        wrapped.push(Pusher::new(sender, log, index, i, identifier));
        i = wrapped.len();
    }
    wrapped
}

impl<T, D, A: Allocate<Message<T, D>>, F: Fn(&D) -> u64> ParallelizationContract<T, D, A> for Exchange<D, F> {
    type Pusher = ExchangePusher<T, D, A::Sender, A::Telemetry, DataHash<T, D, F>>;

    type Puller = Puller<T, D, A::Receiver, A::Telemetry>;

    fn connect(self, allocator: &mut A, identifier: usize) -> (r: (Self::Pusher, Self::Puller))
        ensures
            r.0.wf(),
            r.0.degree() == old(allocator).peer_count(),
            r.0.source() == old(allocator).worker(),
            r.0.channel() == identifier,
            r.0.hasher().func() == self.hasher(),
            forall|i: int|
                0 <= i < r.0.degree() ==> {
                    &&& (#[trigger] r.0.endpoints()[i]).counter() == 0
                    &&& r.0.endpoints()[i].raw().accepted() == Seq::<Message<T, D>>::empty()
                    &&& r.0.endpoints()[i].raw().flushes() == 0
                    &&& r.0.endpoints()[i].telemetry().events() == Seq::<MessagesEvent>::empty()
                    &&& r.0.endpoints()[i].ready()
                },
            r.1.index() == old(allocator).worker(),
            r.1.channel() == identifier,
            r.1.counter() == 0,
            r.1.held().is_none(),
            r.1.raw().delivered() == Seq::<Message<T, D>>::empty(),
            r.1.raw().reclaimed() == Seq::<Message<T, D>>::empty(),
            r.1.telemetry().events() == Seq::<MessagesEvent>::empty(),
    {
        let index = allocator.index();
        let (senders, receiver) = allocator.allocate();
        let wrapped = wrap_senders::<T, D, A>(allocator, senders, index, identifier);
        let recv_log = allocator.logger();
        let fan_out = ExchangePusher::new(wrapped, DataHash::new(self.hash_func));
        let receiver = Puller::new(receiver, recv_log, index, identifier);
        (fan_out, receiver)
    }
}

/// The time-and-data hash-exchange contract: identical to `Exchange` except
/// that the routing hash sees the logical timestamp as well as the data.
pub struct TimeExchange<D, T, F: Fn(&T, &D) -> u64> {
    hash_func: F,
    phantom: PhantomData<(T, D)>,
}

impl<D, T, F: Fn(&T, &D) -> u64> TimeExchange<D, T, F> {
    /// The distribution function.
    pub closed spec fn hasher(&self) -> F {
        self.hash_func
    }

    /// Allocates a new `TimeExchange` pact from a distribution function.
    pub fn new(func: F) -> (r: TimeExchange<D, T, F>)
        ensures
            r.hasher() == func,
    {
        TimeExchange { hash_func: func, phantom: PhantomData }
    }
}

impl<T, D, A: Allocate<Message<T, D>>, F: Fn(&T, &D) -> u64> ParallelizationContract<T, D, A> for TimeExchange<D, T, F> {
    type Pusher = ExchangePusher<T, D, A::Sender, A::Telemetry, TimeDataHash<T, D, F>>;

    type Puller = Puller<T, D, A::Receiver, A::Telemetry>;

    fn connect(self, allocator: &mut A, identifier: usize) -> (r: (Self::Pusher, Self::Puller))
        ensures
            r.0.wf(),
            r.0.degree() == old(allocator).peer_count(),
            r.0.source() == old(allocator).worker(),
            r.0.channel() == identifier,
            r.0.hasher().func() == self.hasher(),
            forall|i: int|
                0 <= i < r.0.degree() ==> {
                    &&& (#[trigger] r.0.endpoints()[i]).counter() == 0
                    &&& r.0.endpoints()[i].raw().accepted() == Seq::<Message<T, D>>::empty()
                    &&& r.0.endpoints()[i].raw().flushes() == 0
                    &&& r.0.endpoints()[i].telemetry().events() == Seq::<MessagesEvent>::empty()
                    &&& r.0.endpoints()[i].ready()
                },
            r.1.index() == old(allocator).worker(),
            r.1.channel() == identifier,
            r.1.counter() == 0,
            r.1.held().is_none(),
            r.1.raw().delivered() == Seq::<Message<T, D>>::empty(),
            r.1.raw().reclaimed() == Seq::<Message<T, D>>::empty(),
            r.1.telemetry().events() == Seq::<MessagesEvent>::empty(),
    {
        let index = allocator.index();
        let (senders, receiver) = allocator.allocate();
        let wrapped = wrap_senders::<T, D, A>(allocator, senders, index, identifier);
        let recv_log = allocator.logger();
        let fan_out = ExchangePusher::new(wrapped, TimeDataHash::new(self.hash_func));
        let receiver = Puller::new(receiver, recv_log, index, identifier);
        (fan_out, receiver)
    }
}

} // verus!
