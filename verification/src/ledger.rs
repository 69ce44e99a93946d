//! One product together with its full journal.
//!
//! `ProductLedger` keeps the single most important invariant of the system:
//! the product's `journal_entries_count` equals the number of journal
//! entries, and the entries carry exactly the sequence numbers
//! `0..count-1`, in order, with no gaps and no duplicates.
//!
//! Each mutating operation takes `presented_count`: the journal counter from
//! the product as the caller last read it, which names the storage address
//! the caller is claiming for the new entry.  The store serializes writers,
//! so a counter read never exceeds the current one; a reading that is now
//! stale means another writer already claimed that sequence number, and the
//! operation fails with `ConcurrentSequenceConflict` — the caller may
//! re-read and retry.

use vstd::prelude::*;

use crate::records::entry_caps_ok;
use crate::records::product_wf;
use crate::records::JournalEntryState;
use crate::records::JournalEntryView;
use crate::records::Principal;
use crate::records::ProductState;
use crate::records::ProductView;
use crate::records::Status;
use crate::records::StatusV;
use crate::records::MAX_JOURNAL_ENTRIES;
use crate::transitions::add_journal_entry;
use crate::transitions::create_product;
use crate::transitions::deactivate_product;
use crate::transitions::lemma_transitions_preserve_wf;
use crate::transitions::mark_delivered;
use crate::transitions::spec_add_entry;
use crate::transitions::spec_create;
use crate::transitions::spec_deactivate;
use crate::transitions::spec_deliver;
use crate::transitions::spec_transfer;
use crate::transitions::transfer_product;
use crate::SupplyChainError;

verus! {

/// A product record and its append-only journal.
pub struct ProductLedger {
    pub product: ProductState,
    pub entries: Vec<JournalEntryState>,
}

impl ProductLedger {
    /// The ledger invariant: a well-formed product whose counter equals the
    /// number of entries, and entries numbered contiguously from 0, each
    /// within capacity and keyed to this product.
    pub open spec fn wf(&self) -> bool {
        &&& product_wf(self.product@)
        &&& self.entries@.len() == self.product@.journal_entries_count
        &&& forall|k: int|
            0 <= k < self.entries@.len() ==> {
                &&& (#[trigger] self.entries@[k])@.entry_number == k
                &&& self.entries@[k]@.product_id == self.product@.product_id
                &&& entry_caps_ok(self.entries@[k]@)
            }
    }

    /// Creates a product and its ledger, holding the creation entry.
    pub fn create(
        product_id: Vec<u8>,
        name: Vec<u8>,
        description: Vec<u8>,
        initial_notes: Vec<u8>,
        creator: &Principal,
        timestamp: i64,
    ) -> (r: Result<ProductLedger, SupplyChainError>)
        ensures
            (match r {
                Ok(ledger) => {
                    &&& ledger.wf()
                    &&& ledger.entries@.len() == 1
                    &&& spec_create(
                        product_id@,
                        name@,
                        description@,
                        initial_notes@,
                        creator@,
                        timestamp as int,
                    ) == Ok::<(ProductView, JournalEntryView), SupplyChainError>(
                        (ledger.product@, ledger.entries@[0]@),
                    )
                },
                Err(code) => spec_create(
                    product_id@,
                    name@,
                    description@,
                    initial_notes@,
                    creator@,
                    timestamp as int,
                ) == Err::<(ProductView, JournalEntryView), SupplyChainError>(code),
            }),
    {
        match create_product(product_id, name, description, initial_notes, creator, timestamp) {
            Ok(pair) => {
                let (product, entry) = pair;
                let mut entries: Vec<JournalEntryState> = Vec::new();
                entries.push(entry);
                Ok(ProductLedger { product, entries })
            },
            Err(code) => Err(code),
        }
    }

    /// Records a caller-supplied status and location update.
    pub fn add_entry(
        &mut self,
        presented_count: u8,
        title: Vec<u8>,
        message: Vec<u8>,
        new_status: Status,
        new_location: Vec<u8>,
        handler: &Principal,
        timestamp: i64,
    ) -> (r: Result<(), SupplyChainError>)
        requires
            old(self).wf(),
            old(self).product.journal_entries_count < MAX_JOURNAL_ENTRIES,
            presented_count <= old(self).product.journal_entries_count,
        ensures
            final(self).wf(),
            (if presented_count < old(self).product.journal_entries_count {
                &&& r == Err::<(), SupplyChainError>(SupplyChainError::ConcurrentSequenceConflict)
                &&& final(self).product@ == old(self).product@
                &&& final(self).entries@ == old(self).entries@
            } else {
                match spec_add_entry(
                    old(self).product@,
                    title@,
                    message@,
                    new_status@,
                    new_location@,
                    handler@,
                    timestamp as int,
                ) {
                    Ok(pair) => {
                        &&& r is Ok
                        &&& final(self).product@ == pair.0
                        &&& final(self).entries@.len() == old(self).entries@.len() + 1
                        &&& (forall|k: int|
                            0 <= k < old(self).entries@.len() ==> final(self).entries@[k] == old(
                                self,
                            ).entries@[k])
                        &&& final(self).entries@.last()@ == pair.1
                    },
                    Err(code) => {
                        &&& r == Err::<(), SupplyChainError>(code)
                        &&& final(self).product@ == old(self).product@
                        &&& final(self).entries@ == old(self).entries@
                    },
                }
            }),
    {
        if presented_count < self.product.journal_entries_count {
            return Err(SupplyChainError::ConcurrentSequenceConflict);
        }
        let ghost new_status_v = new_status@;
        match add_journal_entry(
            &mut self.product,
            title,
            message,
            new_status,
            new_location,
            handler,
            timestamp,
        ) {
            Ok(entry) => {
                self.entries.push(entry);
                proof {
                    // The lemma speaks of all four operations at once; the
                    // arguments that belong to the other three are immaterial.
                    lemma_transitions_preserve_wf(
                        old(self).product@,
                        title@,
                        message@,
                        new_status_v,
                        new_location@,
                        Seq::<u8>::empty(),
                        handler@,
                        timestamp as int,
                    );
                    assert forall|k: int| 0 <= k < self.entries@.len() implies {
                        &&& (#[trigger] self.entries@[k])@.entry_number == k
                        &&& self.entries@[k]@.product_id == self.product@.product_id
                        &&& entry_caps_ok(self.entries@[k]@)
                    } by {
                        if k < self.entries@.len() - 1 {
                            assert(self.entries@[k] == old(self).entries@[k]);
                        }
                    }
                }
                Ok(())
            },
            Err(code) => Err(code),
        }
    }

    /// Transfers custody to `new_owner`.
    pub fn transfer(
        &mut self,
        presented_count: u8,
        title: Vec<u8>,
        message: Vec<u8>,
        new_location: Vec<u8>,
        new_owner: Principal,
        caller: &Principal,
        timestamp: i64,
    ) -> (r: Result<(), SupplyChainError>)
        requires
            old(self).wf(),
            old(self).product.journal_entries_count < MAX_JOURNAL_ENTRIES,
            presented_count <= old(self).product.journal_entries_count,
        ensures
            final(self).wf(),
            (if presented_count < old(self).product.journal_entries_count {
                &&& r == Err::<(), SupplyChainError>(SupplyChainError::ConcurrentSequenceConflict)
                &&& final(self).product@ == old(self).product@
                &&& final(self).entries@ == old(self).entries@
            } else {
                match spec_transfer(
                    old(self).product@,
                    title@,
                    message@,
                    new_location@,
                    new_owner@,
                    caller@,
                    timestamp as int,
                ) {
                    Ok(pair) => {
                        &&& r is Ok
                        &&& final(self).product@ == pair.0
                        &&& final(self).entries@.len() == old(self).entries@.len() + 1
                        &&& (forall|k: int|
                            0 <= k < old(self).entries@.len() ==> final(self).entries@[k] == old(
                                self,
                            ).entries@[k])
                        &&& final(self).entries@.last()@ == pair.1
                    },
                    Err(code) => {
                        &&& r == Err::<(), SupplyChainError>(code)
                        &&& final(self).product@ == old(self).product@
                        &&& final(self).entries@ == old(self).entries@
                    },
                }
            }),
    {
        if presented_count < self.product.journal_entries_count {
            return Err(SupplyChainError::ConcurrentSequenceConflict);
        }
        let ghost new_owner_v = new_owner@;
        match transfer_product(
            &mut self.product,
            title,
            message,
            new_location,
            new_owner,
            caller,
            timestamp,
        ) {
            Ok(entry) => {
                self.entries.push(entry);
                proof {
                    lemma_transitions_preserve_wf(
                        old(self).product@,
                        title@,
                        message@,
                        StatusV::Created,
                        new_location@,
                        new_owner_v,
                        caller@,
                        timestamp as int,
                    );
                    assert forall|k: int| 0 <= k < self.entries@.len() implies {
                        &&& (#[trigger] self.entries@[k])@.entry_number == k
                        &&& self.entries@[k]@.product_id == self.product@.product_id
                        &&& entry_caps_ok(self.entries@[k]@)
                    } by {
                        if k < self.entries@.len() - 1 {
                            assert(self.entries@[k] == old(self).entries@[k]);
                        }
                    }
                }
                Ok(())
            },
            Err(code) => Err(code),
        }
    }

    /// Marks the product delivered at its current location.
    pub fn deliver(
        &mut self,
        presented_count: u8,
        title: Vec<u8>,
        message: Vec<u8>,
        handler: &Principal,
        timestamp: i64,
    ) -> (r: Result<(), SupplyChainError>)
        requires
            old(self).wf(),
            old(self).product.journal_entries_count < MAX_JOURNAL_ENTRIES,
            presented_count <= old(self).product.journal_entries_count,
        ensures
            final(self).wf(),
            (if presented_count < old(self).product.journal_entries_count {
                &&& r == Err::<(), SupplyChainError>(SupplyChainError::ConcurrentSequenceConflict)
                &&& final(self).product@ == old(self).product@
                &&& final(self).entries@ == old(self).entries@
            } else {
                match spec_deliver(
                    old(self).product@,
                    title@,
                    message@,
                    handler@,
                    timestamp as int,
                ) {
                    Ok(pair) => {
                        &&& r is Ok
                        &&& final(self).product@ == pair.0
                        &&& final(self).entries@.len() == old(self).entries@.len() + 1
                        &&& (forall|k: int|
                            0 <= k < old(self).entries@.len() ==> final(self).entries@[k] == old(
                                self,
                            ).entries@[k])
                        &&& final(self).entries@.last()@ == pair.1
                    },
                    Err(code) => {
                        &&& r == Err::<(), SupplyChainError>(code)
                        &&& final(self).product@ == old(self).product@
                        &&& final(self).entries@ == old(self).entries@
                    },
                }
            }),
    {
        if presented_count < self.product.journal_entries_count {
            return Err(SupplyChainError::ConcurrentSequenceConflict);
        }
        match mark_delivered(&mut self.product, title, message, handler, timestamp) {
            Ok(entry) => {
                self.entries.push(entry);
                proof {
                    lemma_transitions_preserve_wf(
                        old(self).product@,
                        title@,
                        message@,
                        StatusV::Created,
                        Seq::<u8>::empty(),
                        Seq::<u8>::empty(),
                        handler@,
                        timestamp as int,
                    );
                    assert forall|k: int| 0 <= k < self.entries@.len() implies {
                        &&& (#[trigger] self.entries@[k])@.entry_number == k
                        &&& self.entries@[k]@.product_id == self.product@.product_id
                        &&& entry_caps_ok(self.entries@[k]@)
                    } by {
                        if k < self.entries@.len() - 1 {
                            assert(self.entries@[k] == old(self).entries@[k]);
                        }
                    }
                }
                Ok(())
            },
            Err(code) => Err(code),
        }
    }

    /// Takes the product out of the supply chain for good.
    pub fn deactivate(
        &mut self,
        presented_count: u8,
        title: Vec<u8>,
        reason: Vec<u8>,
        handler: &Principal,
        timestamp: i64,
    ) -> (r: Result<(), SupplyChainError>)
        requires
            old(self).wf(),
            old(self).product.journal_entries_count < MAX_JOURNAL_ENTRIES,
            presented_count <= old(self).product.journal_entries_count,
        ensures
            final(self).wf(),
            (if presented_count < old(self).product.journal_entries_count {
                &&& r == Err::<(), SupplyChainError>(SupplyChainError::ConcurrentSequenceConflict)
                &&& final(self).product@ == old(self).product@
                &&& final(self).entries@ == old(self).entries@
            } else {
                match spec_deactivate(
                    old(self).product@,
                    title@,
                    reason@,
                    handler@,
                    timestamp as int,
                ) {
                    Ok(pair) => {
                        &&& r is Ok
                        &&& final(self).product@ == pair.0
                        &&& final(self).entries@.len() == old(self).entries@.len() + 1
                        &&& (forall|k: int|
                            0 <= k < old(self).entries@.len() ==> final(self).entries@[k] == old(
                                self,
                            ).entries@[k])
                        &&& final(self).entries@.last()@ == pair.1
                    },
                    Err(code) => {
                        &&& r == Err::<(), SupplyChainError>(code)
                        &&& final(self).product@ == old(self).product@
                        &&& final(self).entries@ == old(self).entries@
                    },
                }
            }),
    {
        if presented_count < self.product.journal_entries_count {
            return Err(SupplyChainError::ConcurrentSequenceConflict);
        }
        match deactivate_product(&mut self.product, title, reason, handler, timestamp) {
            Ok(entry) => {
                self.entries.push(entry);
                proof {
                    lemma_transitions_preserve_wf(
                        old(self).product@,
                        title@,
                        reason@,
                        StatusV::Created,
                        Seq::<u8>::empty(),
                        Seq::<u8>::empty(),
                        handler@,
                        timestamp as int,
                    );
                    assert forall|k: int| 0 <= k < self.entries@.len() implies {
                        &&& (#[trigger] self.entries@[k])@.entry_number == k
                        &&& self.entries@[k]@.product_id == self.product@.product_id
                        &&& entry_caps_ok(self.entries@[k]@)
                    } by {
                        if k < self.entries@.len() - 1 {
                            assert(self.entries@[k] == old(self).entries@[k]);
                        }
                    }
                }
                Ok(())
            },
            Err(code) => Err(code),
        }
    }
}

/// Law: in a well-formed ledger the journal counter equals the number of
/// entries, and entries exist for exactly the sequence numbers
/// `0..count-1` — contiguous from 0, no gaps, no duplicates.
pub proof fn lemma_journal_is_gapless(ledger: &ProductLedger)
    requires
        ledger.wf(),
    ensures
        ledger.entries@.len() == ledger.product@.journal_entries_count,
        forall|k: int|
            0 <= k < ledger.entries@.len() ==> (#[trigger] ledger.entries@[k])@.entry_number == k,
        forall|k1: int, k2: int|
            0 <= k1 < ledger.entries@.len() && 0 <= k2 < ledger.entries@.len() && k1 != k2
                ==> (#[trigger] ledger.entries@[k1])@.entry_number != (
            #[trigger] ledger.entries@[k2])@.entry_number,
{
}

} // verus!
