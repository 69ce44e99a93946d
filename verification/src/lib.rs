//! Custody and status tracking for supply-chain products.
//!
//! A `ProductState` record holds the current state of one tracked item, and a
//! strictly sequenced, append-only journal of `JournalEntryState` records
//! holds its full history.  Five transition operations (create, add-entry,
//! transfer, mark-delivered, deactivate) each mutate the product and append
//! exactly one journal entry, under authorization and capacity rules.
//!
//! The host that authenticates callers and persists records is outside this
//! crate: callers hand the operations an authenticated principal and a
//! timestamp as plain values, and receive records back.

use vstd::prelude::*;

pub mod codec;
pub mod ledger;
pub mod records;
pub mod registry;
pub mod transitions;

verus! {

/// The error codes surfaced by the operations.  Every failure aborts the
/// whole operation before any mutation, so an error always leaves every
/// record unchanged.
#[derive(Clone, Copy, Debug, PartialEq, Eq, Structural)]
pub enum SupplyChainError {
    /// A create was attempted for a `product_id` that already has a record.
    DuplicateProduct,
    /// A mutation was attempted on a deactivated product.
    ProductInactive,
    /// The caller is not the product's `current_owner`.
    Unauthorized,
    /// Two operations raced to claim the same journal sequence number; the
    /// caller may re-read the product and retry.
    ConcurrentSequenceConflict,
    /// A field exceeds its reserved capacity.
    CapacityExceeded,
}

} // verus!
