//! The set of all product ledgers, keyed by `product_id`.
//!
//! The record store derives a product's storage address deterministically
//! from its `product_id`, so creating a second product with the same
//! identifier finds the address occupied and fails with `DuplicateProduct`,
//! leaving the first record unchanged.  The registry models that store:
//! product identifiers are unique across it.

use vstd::prelude::*;

use crate::ledger::ProductLedger;
use crate::records::bytes_eq;
use crate::records::JournalEntryView;
use crate::records::Principal;
use crate::records::ProductView;
use crate::transitions::spec_create;
use crate::SupplyChainError;

verus! {

/// All tracked products, each with its journal.
pub struct Registry {
    pub ledgers: Vec<ProductLedger>,
}

impl Registry {
    /// The registry invariant: every ledger is well formed and no two
    /// products share a `product_id`.
    pub open spec fn wf(&self) -> bool {
        &&& forall|i: int| 0 <= i < self.ledgers@.len() ==> (#[trigger] self.ledgers@[i]).wf()
        &&& forall|i: int, j: int|
            0 <= i < j < self.ledgers@.len() ==> self.ledgers@[i].product@.product_id
                != self.ledgers@[j].product@.product_id
    }

    /// Whether some product in the registry has this identifier.
    pub open spec fn spec_has(&self, product_id: Seq<u8>) -> bool {
        exists|i: int|
            0 <= i < self.ledgers@.len() && (#[trigger] self.ledgers@[i]).product@.product_id
                == product_id
    }

    /// An empty registry.
    pub fn new() -> (r: Registry)
        ensures
            r.wf(),
            r.ledgers@.len() == 0,
    {
        Registry { ledgers: Vec::new() }
    }

    /// Looks a product up by its identifier.
    pub fn find(&self, product_id: &Vec<u8>) -> (r: Option<usize>)
        ensures
            (match r {
                Some(i) => i < self.ledgers@.len() && self.ledgers@[i as int].product@.product_id
                    == product_id@,
                None => !self.spec_has(product_id@),
            }),
    {
        let mut i: usize = 0;
        while i < self.ledgers.len()
            invariant
                i <= self.ledgers@.len(),
                forall|j: int|
                    0 <= j < i ==> (#[trigger] self.ledgers@[j]).product@.product_id
                        != product_id@,
            decreases self.ledgers@.len() - i,
        {
            let ledger = &self.ledgers[i];
            if bytes_eq(&ledger.product.product_id, product_id) {
                return Some(i);
            }
            i = i + 1;
        }
        None
    }

    /// Creates a product under an identifier no product uses yet, or fails
    /// with `DuplicateProduct` and changes nothing.
    pub fn create_product(
        &mut self,
        product_id: Vec<u8>,
        name: Vec<u8>,
        description: Vec<u8>,
        initial_notes: Vec<u8>,
        creator: &Principal,
        timestamp: i64,
    ) -> (r: Result<(), SupplyChainError>)
        requires
            old(self).wf(),
        ensures
            final(self).wf(),
            (if old(self).spec_has(product_id@) {
                &&& r == Err::<(), SupplyChainError>(SupplyChainError::DuplicateProduct)
                &&& final(self).ledgers@ == old(self).ledgers@
            } else {
                match spec_create(
                    product_id@,
                    name@,
                    description@,
                    initial_notes@,
                    creator@,
                    timestamp as int,
                ) {
                    Ok(pair) => {
                        &&& r is Ok
                        &&& final(self).ledgers@.len() == old(self).ledgers@.len() + 1
                        &&& (forall|k: int|
                            0 <= k < old(self).ledgers@.len() ==> final(self).ledgers@[k] == old(
                                self,
                            ).ledgers@[k])
                        &&& final(self).ledgers@.last().product@ == pair.0
                        &&& final(self).ledgers@.last().entries@.len() == 1
                        &&& final(self).ledgers@.last().entries@[0]@ == pair.1
                    },
                    Err(code) => {
                        &&& r == Err::<(), SupplyChainError>(code)
                        &&& final(self).ledgers@ == old(self).ledgers@
                    },
                }
            }),
    {
        let ghost pid = product_id@;
        if self.find(&product_id).is_some() {
            return Err(SupplyChainError::DuplicateProduct);
        }
        match ProductLedger::create(product_id, name, description, initial_notes, creator,
            timestamp) {
            Ok(ledger) => {
                self.ledgers.push(ledger);
                proof {
                    assert forall|i: int| 0 <= i < self.ledgers@.len() implies (
                    #[trigger] self.ledgers@[i]).wf() by {
                        if i < self.ledgers@.len() - 1 {
                            assert(self.ledgers@[i] == old(self).ledgers@[i]);
                        }
                    }
                    assert forall|i: int, j: int|
                        0 <= i < j < self.ledgers@.len() implies self.ledgers@[i].product@.product_id
                        != self.ledgers@[j].product@.product_id by {
                        assert(self.ledgers@[i] == old(self).ledgers@[i]);
                        if j < self.ledgers@.len() - 1 {
                            assert(self.ledgers@[j] == old(self).ledgers@[j]);
                        } else {
                            if self.ledgers@[i].product@.product_id == pid {
                                assert(old(self).spec_has(pid));
                            }
                        }
                    }
                }
                Ok(())
            },
            Err(code) => Err(code),
        }
    }
}

} // verus!
