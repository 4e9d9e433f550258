//! The fan-out multiplexing send endpoint used by the exchange contracts.
//!
//! One logical push call is forwarded to exactly one of several wrapped send
//! endpoints, chosen by hashing the pushed batch and reducing the hash modulo
//! the number of destinations. The batch is the atomic unit of routing: it is
//! never split, so every record it holds reaches exactly one destination and
//! the total record count per timestamp is conserved. A flush is forwarded to
//! every destination.

use vstd::prelude::*;

use crate::comm::Push;
use crate::logging::Logger;
use crate::message::Content;
use crate::message::Message;
use crate::pact::Pusher;

verus! {

/// The routing hash consumed by the fan-out endpoint: some function of a
/// timestamp and a record into `u64`.
///
/// `admits` says which arguments the function may be applied to, and `gives`
/// which results it may return for them; both are abstract so that one
/// fan-out endpoint serves hashes of the data alone as well as hashes of
/// time and data together.
pub trait RoutingHash<T, D>: Sized {
    /// Whether the hash may be applied to `(t, d)`.
    spec fn admits(&self, t: T, d: D) -> bool;

    /// Whether `h` is a result the hash may return for `(t, d)`.
    spec fn gives(&self, t: T, d: D, h: u64) -> bool;

    /// Applies the hash.
    fn hash(&self, t: &T, d: &D) -> (h: u64)
        requires
            self.admits(*t, *d),
        ensures
            self.gives(*t, *d, h),
    ;
}

/// The destination index for hash value `h` among `n` destinations.
pub open spec fn route_of(h: u64, n: nat) -> int {
    h as int % n as int
}

/// The number of records at timestamp `t` among the frames `frames`.
pub open spec fn records_at<T, D>(frames: Seq<Message<T, D>>, t: T) -> nat
    decreases frames.len(),
{
    if frames.len() == 0 {
        0
    } else {
        records_at(frames.drop_last(), t) + if frames.last().time == t {
            frames.last().data@.len()
        } else {
            0
        }
    }
}

/// The number of records at timestamp `t` among the batches `batches`.
pub open spec fn batched_records_at<T, D>(batches: Seq<(T, Content<D>)>, t: T) -> nat
    decreases batches.len(),
{
    if batches.len() == 0 {
        0
    } else {
        batched_records_at(batches.drop_last(), t) + if batches.last().0 == t {
            batches.last().1@.len()
        } else {
            0
        }
    }
}

/// A send endpoint that routes each pushed batch to one of `n` wrapped
/// endpoints by the caller-supplied hash of its timestamp and first record,
/// reduced modulo `n`. An empty batch carries no record to hash and goes to
/// destination zero.
pub struct ExchangePusher<T, D, P: Push<Message<T, D>>, L: Logger, R: RoutingHash<T, D>> {
    pushers: Vec<Pusher<T, D, P, L>>,
    hash_func: R,
    history: Ghost<Seq<(T, Content<D>)>>,
    flush_count: Ghost<nat>,
}

impl<T, D, P: Push<Message<T, D>>, L: Logger, R: RoutingHash<T, D>> ExchangePusher<T, D, P, L, R> {
    /// The wrapped per-destination endpoints, in destination order.
    pub closed spec fn endpoints(&self) -> Seq<Pusher<T, D, P, L>> {
        self.pushers@
    }

    /// The number of destinations.
    pub open spec fn degree(&self) -> nat {
        self.endpoints().len()
    }

    /// The caller-supplied hash function.
    pub closed spec fn hasher(&self) -> R {
        self.hash_func
    }

    /// The index of the worker that owns this endpoint.
    pub open spec fn source(&self) -> usize {
        self.endpoints()[0].source()
    }

    /// The channel identifier all wrapped endpoints carry.
    pub open spec fn channel(&self) -> usize {
        self.endpoints()[0].channel()
    }

    /// There is at least one destination; the endpoint at position `i`
    /// addresses worker `i`; and all endpoints share this worker's index and
    /// the channel identifier and are well-formed.
    pub open spec fn wf(&self) -> bool {
        &&& self.degree() > 0
        &&& forall|i: int|
            0 <= i < self.endpoints().len() ==> {
                &&& (#[trigger] self.endpoints()[i]).wf()
                &&& self.endpoints()[i].target() == i
                &&& self.endpoints()[i].source() == self.source()
                &&& self.endpoints()[i].channel() == self.channel()
            }
    }

    /// Every destination endpoint can take one more call.
    pub open spec fn all_ready(&self) -> bool {
        forall|i: int| 0 <= i < self.endpoints().len() ==> (#[trigger] self.endpoints()[i]).ready()
    }

    /// The routing hash can be applied to any timestamp and record.
    pub open spec fn hash_total(&self) -> bool {
        forall|t: T, d: D| #[trigger] self.hasher().admits(t, d)
    }

    /// `i` is a destination the routing rule may choose for `(t, d)`: the
    /// reduction modulo the degree of some possible hash of the batch, or
    /// zero for an empty batch.
    pub open spec fn selects(&self, t: T, d: Content<D>, i: int) -> bool {
        if d@.len() > 0 {
            exists|h: u64| #[trigger] self.hasher().gives(t, d@[0], h) && i == route_of(h, self.degree())
        } else {
            i == 0
        }
    }

    /// Builds the fan-out endpoint over one wrapped endpoint per destination.
    pub fn new(pushers: Vec<Pusher<T, D, P, L>>, hash_func: R) -> (r: ExchangePusher<
        T,
        D,
        P,
        L,
        R,
    >)
        requires
            pushers@.len() > 0,
            forall|i: int|
                0 <= i < pushers@.len() ==> {
                    &&& (#[trigger] pushers@[i]).wf()
                    &&& pushers@[i].target() == i
                    &&& pushers@[i].source() == pushers@[0].source()
                    &&& pushers@[i].channel() == pushers@[0].channel()
                },
        ensures
            r.endpoints() == pushers@,
            r.hasher() == hash_func,
            r.accepted() == Seq::<(T, Content<D>)>::empty(),
            r.flushes() == 0,
            r.wf(),
    {
        ExchangePusher { pushers, hash_func, history: Ghost(Seq::empty()), flush_count: Ghost(0) }
    }

    /// A view of the wrapped per-destination endpoints, so a harness can see
    /// what each destination was handed.
    pub fn destinations(&self) -> (r: &Vec<Pusher<T, D, P, L>>)
        ensures
            r@ == self.endpoints(),
    {
        &self.pushers
    }
}

impl<T, D, P: Push<Message<T, D>>, L: Logger, R: RoutingHash<T, D>> Push<(T, Content<D>)> for ExchangePusher<T, D, P, L, R> {
    closed spec fn accepted(&self) -> Seq<(T, Content<D>)> {
        self.history@
    }

    closed spec fn flushes(&self) -> nat {
        self.flush_count@
    }

    open spec fn ready(&self) -> bool {
        &&& self.wf()
        &&& self.all_ready()
        &&& self.hash_total()
    }

    open spec fn spare(&self) -> Option<(T, Content<D>)> {
        None
    }

    fn push(&mut self, pair: &mut Option<(T, Content<D>)>)
        ensures
            final(self).degree() == old(self).degree(),
            final(self).hasher() == old(self).hasher(),
            final(self).wf(),
            final(pair).is_none(),
            old(pair).is_some() ==> exists|i: int|
                {
                    &&& 0 <= i < old(self).degree()
                    &&& #[trigger] old(self).selects(old(pair).unwrap().0, old(pair).unwrap().1, i)
                    &&& final(self).endpoints()[i].raw().accepted() == old(
                        self,
                    ).endpoints()[i].raw().accepted().push(
                        Message {
                            time: old(pair).unwrap().0,
                            data: old(pair).unwrap().1,
                            from: old(self).source(),
                            seq: old(self).endpoints()[i].counter(),
                        },
                    )
                    &&& final(self).endpoints()[i].telemetry().events() == old(
                        self,
                    ).endpoints()[i].telemetry().events().push(
                        old(self).endpoints()[i].send_event(old(pair).unwrap().1@.len()),
                    )
                    &&& forall|j: int|
                        0 <= j < old(self).degree() && j != i ==> final(self).endpoints()[j] == old(
                            self,
                        ).endpoints()[j]
                },
            old(pair).is_none() ==> {
                &&& forall|j: int|
                    0 <= j < old(self).degree() ==> {
                        &&& (#[trigger] final(self).endpoints()[j]).raw().accepted() == old(
                            self,
                        ).endpoints()[j].raw().accepted()
                        &&& final(self).endpoints()[j].raw().flushes() == old(
                            self,
                        ).endpoints()[j].raw().flushes() + 1
                        &&& final(self).endpoints()[j].telemetry().events() == old(
                            self,
                        ).endpoints()[j].telemetry().events()
                    }
            },
    {
        let ghost prior = *self;
        proof {
            assert forall|j: int| 0 <= j < prior.degree() implies (#[trigger] prior.endpoints()[j]).ready() by {}
        }
        let taken = pair.take();
        match taken {
            Some((time, data)) => {
                let n = self.pushers.len();
                let idx: usize = if data.len() > 0 {
                    proof {
                        assert(prior.hasher().admits(time, data@[0]));
                    }
                    let h = self.hash_func.hash(&time, &data.records()[0]);
                    (h % (n as u64)) as usize
                } else {
                    0
                };
                let ghost entry = (time, data);
                let mut slot = Some((time, data));
                proof {
                    assert(self.pushers@[idx as int] == prior.endpoints()[idx as int]);
                    assert(prior.endpoints()[idx as int].ready());
                }
                let destination = &mut self.pushers[idx];
                destination.push(&mut slot);
                self.history = Ghost(self.history@.push(entry));
                proof {
                    assert(prior.selects(entry.0, entry.1, idx as int));
                    assert forall|j: int| 0 <= j < self.pushers@.len() implies {
                        &&& (#[trigger] self.pushers@[j]).wf()
                        &&& self.pushers@[j].target() == j
                        &&& self.pushers@[j].source() == self.pushers@[0].source()
                        &&& self.pushers@[j].channel() == self.pushers@[0].channel()
                    } by {
                        if j != idx as int {
                            assert(self.pushers@[j] == prior.endpoints()[j]);
                        }
                    }
                }
            }
            None => {
                let mut i: usize = 0;
                let n = self.pushers.len();
                while i < n
                    invariant
                        n == self.pushers@.len(),
                        n == prior.degree(),
                        0 <= i <= n,
                        self.history@ == prior.history@,
                        self.flush_count@ == prior.flush_count@,
                        self.hash_func == prior.hash_func,
                        forall|j: int|
                            0 <= j < n ==> (#[trigger] prior.endpoints()[j]).ready(),
                        forall|j: int|
                            i <= j < n ==> self.pushers@[j] == prior.endpoints()[j],
                        forall|j: int|
                            0 <= j < i ==> {
                                &&& (#[trigger] self.pushers@[j]).raw().accepted()
                                    == prior.endpoints()[j].raw().accepted()
                                &&& self.pushers@[j].raw().flushes() == prior.endpoints()[j].raw().flushes() + 1
                                &&& self.pushers@[j].telemetry().events()
                                    == prior.endpoints()[j].telemetry().events()
                                &&& self.pushers@[j].wf()
                                &&& self.pushers@[j].counter() == prior.endpoints()[j].counter()
                                &&& self.pushers@[j].source() == prior.endpoints()[j].source()
                                &&& self.pushers@[j].target() == prior.endpoints()[j].target()
                                &&& self.pushers@[j].channel() == prior.endpoints()[j].channel()
                            },
                    decreases n - i,
                {
                    let mut flush_slot: Option<(T, Content<D>)> = None;
                    proof {
                        assert(self.pushers@[i as int] == prior.endpoints()[i as int]);
                        assert(prior.endpoints()[i as int].ready());
                    }
                    let destination = &mut self.pushers[i];
                    destination.push(&mut flush_slot);
                    i = i + 1;
                }
                self.flush_count = Ghost(self.flush_count@ + 1);
                proof {
                    assert forall|j: int| 0 <= j < self.pushers@.len() implies {
                        &&& (#[trigger] self.pushers@[j]).wf()
                        &&& self.pushers@[j].target() == j
                        &&& self.pushers@[j].source() == self.pushers@[0].source()
                        &&& self.pushers@[j].channel() == self.pushers@[0].channel()
                    } by {}
                }
            }
        }
    }
}

} // verus!
