//! A verified core for tracking the lifecycle of leasable assets.
//!
//! The crate keeps three kinds of records: [`records::Asset`] entries for the
//! items offered for lease, [`records::LeaseStatus`] entries for the lease
//! terms created against them, and a single [`records::AssetStats`] aggregate.
//! All of them live inside a [`lifecycle::RentPaymentContract`] value, whose
//! methods are the only writers. Every operation either completes in full or
//! returns an error and leaves the state untouched.
//!
//! The hosting environment is expected to supply what the core deliberately
//! leaves out: durable storage for the state, the current timestamp, and the
//! resolution of caller identities to the opaque numeric handles the records
//! store.

pub mod lifecycle;
pub mod records;
pub mod tally;
