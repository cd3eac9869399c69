//! Settlement engine of a ticketed lottery running on a shared ledger.
//!
//! The engine's records (configuration, lotteries, ticket bundles) are plain
//! values; the hosting ledger creates and destroys them at derived addresses,
//! serializes writers, and applies each operation atomically. Every operation
//! here validates before it mutates, performs exact fixed-point arithmetic,
//! and enforces the one-way settlement transitions: a lottery is rewarded or
//! refunded, never both, and a bundle is refunded at most once.

use vstd::prelude::*;

pub mod account_size;
pub mod account_struct;
pub mod instructions;
pub mod laws;
pub mod lotto_enum;
pub mod lotto_util;

verus! {

/// Address of a ledger record: an opaque handle issued by the host ledger's
/// content-addressed mapping (namespace + seed -> handle).
#[derive(PartialEq, Eq, Structural, Clone, Copy, Debug)]
pub struct Address {
    pub id: u64,
}

} // verus!
