//! The framed unit of transfer along a dataflow edge.

use vstd::prelude::*;

verus! {

/// A batch of records moved as one atomic unit between a push and its
/// matching pull.
///
/// Ownership of the batch passes wholesale from the sender to the receiver on
/// delivery; the container itself is kept around so that its storage can be
/// handed back and reused once its records have been consumed.
#[derive(Clone)]
pub struct Content<D> {
    records: Vec<D>,
}

impl<D> View for Content<D> {
    type V = Seq<D>;

    closed spec fn view(&self) -> Seq<D> {
        self.records@
    }
}

impl<D> Content<D> {
    /// Wraps an owned vector of records as a batch.
    pub fn from_typed(records: Vec<D>) -> (c: Content<D>)
        ensures
            c@ == records@,
    {
        Content { records }
    }

    /// Gives the records back to the caller, consuming the batch.
    pub fn into_typed(self) -> (r: Vec<D>)
        ensures
            r@ == self@,
    {
        self.records
    }

    /// A view of the records without giving up the batch.
    pub fn records(&self) -> (r: &Vec<D>)
        ensures
            r@ == self@,
    {
        &self.records
    }

    /// The number of records in the batch.
    pub fn len(&self) -> (n: usize)
        ensures
            n == self@.len(),
    {
        self.records.len()
    }
}

/// A batch in transit: the batch itself, its logical timestamp, the index of
/// the worker that sent it, and that worker's running sequence number for the
/// channel.
///
/// A message is constructed at push time from caller-owned data, exists only
/// while queued in the underlying transport, and is unwrapped exactly once at
/// the matching pull, where ownership of its batch passes to the puller.
#[derive(Clone)]
pub struct Message<T, D> {
    /// The logical timestamp of the batch. This layer never compares
    /// timestamps; only the progress-tracking runtime does.
    pub time: T,
    /// The batch of records.
    pub data: Content<D>,
    /// The index of the sending worker.
    pub from: usize,
    /// The sender's sequence number: per (sender, channel) these start at zero
    /// and count up by one with each framed batch.
    pub seq: usize,
}

impl<T, D> Message<T, D> {
    /// Frames a batch for transfer.
    pub fn new(time: T, data: Content<D>, from: usize, seq: usize) -> (m: Message<T, D>)
        ensures
            m.time == time,
            m.data == data,
            m.from == from,
            m.seq == seq,
    {
        Message { time, data, from, seq }
    }
}

} // verus!
