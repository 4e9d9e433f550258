//! Parallelization contracts: the policies by which timestamped batches of
//! records move along the edges of a dataflow graph, from the worker that
//! produced them to the worker that should consume them.
//!
//! A contract is asked once per logical channel to produce a matched pair of
//! endpoints: a send endpoint that frames, sequences and routes batches, and a
//! receive endpoint that unwraps them again. The one obligation every contract
//! shares is that it may redistribute *where* a batch is observed but must
//! never alter *how many* records exist at a given timestamp system-wide; the
//! progress-tracking runtime depends on that count being independent of the
//! routing policy.

pub mod comm;
pub mod laws;
pub mod logging;
pub mod message;
pub mod pact;
pub mod pushers;

pub use message::Content;
pub use message::Message;
