//! A request/response correlation layer for content-addressed record lookups.
//!
//! The core keeps a pending-result table that records, per content address,
//! whether a lookup was never requested, is still in flight, or has settled
//! with a success or a failure. Initiating a lookup, recording the outcome of
//! the send attempt, processing a timeout, and processing a reply are each a
//! reducer: a transition applied to the shared state one action at a time,
//! under the host's serialization guarantee. The central rule is the
//! tie-break between the two competing completion signals: a reply always
//! settles the entry, while a timeout only ever turns a still-pending entry
//! into a timeout failure and never touches a settled one.

pub mod laws;
pub mod state;
pub mod types;
