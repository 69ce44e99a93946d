//! The five transition operations of the product/journal state machine.
//!
//! Each operation validates its preconditions, mutates the product record,
//! and builds exactly one journal entry, atomically: the first failing check
//! aborts the whole operation with no mutation.
//!
//! What every operation does is stated once, as a spec-level transition
//! function from the product's old value and the inputs to either the
//! product's new value paired with the new journal entry, or the error.  The
//! executable operations are proved to follow those functions exactly.
//!
//! Authorization policy: every mutating operation — add-entry, transfer,
//! mark-delivered and deactivate — requires the product to be active and the
//! caller to be the recorded `current_owner`.  The source family this design
//! comes from is inconsistent on two points (whether add-entry checks
//! ownership, and whether deactivate checks activity); this crate resolves
//! both by checking uniformly, which keeps deactivation terminal.

use vstd::prelude::*;

use crate::records::copy_bytes;
use crate::records::entry_caps_ok;
use crate::records::product_wf;
use crate::records::status_fits;
use crate::records::JournalEntryState;
use crate::records::JournalEntryView;
use crate::records::Principal;
use crate::records::ProductState;
use crate::records::ProductView;
use crate::records::Status;
use crate::records::StatusV;
use crate::records::MAX_DESCRIPTION_BYTES;
use crate::records::MAX_ENTRY_STATUS_BYTES;
use crate::records::MAX_JOURNAL_ENTRIES;
use crate::records::MAX_MESSAGE_BYTES;
use crate::records::MAX_NAME_BYTES;
use crate::records::MAX_PRINCIPAL_BYTES;
use crate::records::MAX_PRODUCT_ID_BYTES;
use crate::records::MAX_PRODUCT_LOCATION_BYTES;
use crate::records::MAX_TITLE_BYTES;
use crate::SupplyChainError;

verus! {

/// The location every product starts at: the bytes of "Origin".
pub open spec fn origin_label() -> Seq<u8> {
    seq![79u8, 114u8, 105u8, 103u8, 105u8, 110u8]
}

/// The title of every creation entry: the bytes of "Product Registration".
pub open spec fn registration_title() -> Seq<u8> {
    seq![
        80u8,
        114u8,
        111u8,
        100u8,
        117u8,
        99u8,
        116u8,
        32u8,
        82u8,
        101u8,
        103u8,
        105u8,
        115u8,
        116u8,
        114u8,
        97u8,
        116u8,
        105u8,
        111u8,
        110u8,
    ]
}

/// Builds the "Origin" location label.
pub fn origin_location() -> (r: Vec<u8>)
    ensures
        r@ == origin_label(),
{
    let mut v: Vec<u8> = Vec::new();
    v.push(79);
    v.push(114);
    v.push(105);
    v.push(103);
    v.push(105);
    v.push(110);
    proof {
        assert(v@ =~= origin_label());
    }
    v
}

/// Builds the "Product Registration" title.
pub fn registration_title_bytes() -> (r: Vec<u8>)
    ensures
        r@ == registration_title(),
{
    let mut v: Vec<u8> = Vec::new();
    v.push(80);
    v.push(114);
    v.push(111);
    v.push(100);
    v.push(117);
    v.push(99);
    v.push(116);
    v.push(32);
    v.push(82);
    v.push(101);
    v.push(103);
    v.push(105);
    v.push(115);
    v.push(116);
    v.push(114);
    v.push(97);
    v.push(116);
    v.push(105);
    v.push(111);
    v.push(110);
    proof {
        assert(v@ =~= registration_title());
    }
    v
}

/// What create does: a fresh product with the creation entry (entry 0), or
/// `CapacityExceeded` if any input exceeds its reserved size.
pub open spec fn spec_create(
    product_id: Seq<u8>,
    name: Seq<u8>,
    description: Seq<u8>,
    initial_notes: Seq<u8>,
    creator: Seq<u8>,
    timestamp: int,
) -> Result<(ProductView, JournalEntryView), SupplyChainError> {
    if product_id.len() > MAX_PRODUCT_ID_BYTES || name.len() > MAX_NAME_BYTES
        || description.len() > MAX_DESCRIPTION_BYTES || initial_notes.len() > MAX_MESSAGE_BYTES
        || creator.len() > MAX_PRINCIPAL_BYTES {
        Err(SupplyChainError::CapacityExceeded)
    } else {
        Ok(
            (
                ProductView {
                    product_id: product_id,
                    name: name,
                    description: description,
                    current_owner: creator,
                    current_location: origin_label(),
                    current_status: StatusV::Created,
                    created_at: timestamp,
                    is_active: true,
                    journal_entries_count: 1,
                },
                JournalEntryView {
                    product_id: product_id,
                    owner: creator,
                    timestamp: timestamp,
                    title: registration_title(),
                    message: initial_notes,
                    status: StatusV::Created,
                    location: origin_label(),
                    entry_number: 0,
                },
            ),
        )
    }
}

/// What add-entry does to an existing product.
pub open spec fn spec_add_entry(
    p: ProductView,
    title: Seq<u8>,
    message: Seq<u8>,
    new_status: StatusV,
    new_location: Seq<u8>,
    handler: Seq<u8>,
    timestamp: int,
) -> Result<(ProductView, JournalEntryView), SupplyChainError> {
    if !p.is_active {
        Err(SupplyChainError::ProductInactive)
    } else if handler != p.current_owner {
        Err(SupplyChainError::Unauthorized)
    } else if title.len() > MAX_TITLE_BYTES || message.len() > MAX_MESSAGE_BYTES
        || !status_fits(new_status, MAX_ENTRY_STATUS_BYTES as int)
        || new_location.len() > MAX_PRODUCT_LOCATION_BYTES {
        Err(SupplyChainError::CapacityExceeded)
    } else {
        Ok(
            (
                ProductView {
                    current_status: new_status,
                    current_location: new_location,
                    journal_entries_count: p.journal_entries_count + 1,
                    ..p
                },
                JournalEntryView {
                    product_id: p.product_id,
                    owner: handler,
                    timestamp: timestamp,
                    title: title,
                    message: message,
                    status: new_status,
                    location: new_location,
                    entry_number: p.journal_entries_count,
                },
            ),
        )
    }
}

/// What transfer does: custody moves to `new_owner`, and the entry records
/// the previous owner as the acting custodian.
pub open spec fn spec_transfer(
    p: ProductView,
    title: Seq<u8>,
    message: Seq<u8>,
    new_location: Seq<u8>,
    new_owner: Seq<u8>,
    caller: Seq<u8>,
    timestamp: int,
) -> Result<(ProductView, JournalEntryView), SupplyChainError> {
    if !p.is_active {
        Err(SupplyChainError::ProductInactive)
    } else if caller != p.current_owner {
        Err(SupplyChainError::Unauthorized)
    } else if title.len() > MAX_TITLE_BYTES || message.len() > MAX_MESSAGE_BYTES
        || new_location.len() > MAX_PRODUCT_LOCATION_BYTES || new_owner.len()
        > MAX_PRINCIPAL_BYTES {
        Err(SupplyChainError::CapacityExceeded)
    } else {
        Ok(
            (
                ProductView {
                    current_owner: new_owner,
                    current_location: new_location,
                    current_status: StatusV::Transferred,
                    journal_entries_count: p.journal_entries_count + 1,
                    ..p
                },
                JournalEntryView {
                    product_id: p.product_id,
                    owner: p.current_owner,
                    timestamp: timestamp,
                    title: title,
                    message: message,
                    status: StatusV::Transferred,
                    location: new_location,
                    entry_number: p.journal_entries_count,
                },
            ),
        )
    }
}

/// What mark-delivered does: the status becomes Delivered, the location is
/// unchanged and is copied into the entry.
pub open spec fn spec_deliver(
    p: ProductView,
    title: Seq<u8>,
    message: Seq<u8>,
    handler: Seq<u8>,
    timestamp: int,
) -> Result<(ProductView, JournalEntryView), SupplyChainError> {
    if !p.is_active {
        Err(SupplyChainError::ProductInactive)
    } else if handler != p.current_owner {
        Err(SupplyChainError::Unauthorized)
    } else if title.len() > MAX_TITLE_BYTES || message.len() > MAX_MESSAGE_BYTES {
        Err(SupplyChainError::CapacityExceeded)
    } else {
        Ok(
            (
                ProductView {
                    current_status: StatusV::Delivered,
                    journal_entries_count: p.journal_entries_count + 1,
                    ..p
                },
                JournalEntryView {
                    product_id: p.product_id,
                    owner: handler,
                    timestamp: timestamp,
                    title: title,
                    message: message,
                    status: StatusV::Delivered,
                    location: p.current_location,
                    entry_number: p.journal_entries_count,
                },
            ),
        )
    }
}

/// What deactivate does: the product leaves the active state for good, the
/// entry records the reason as its message.
pub open spec fn spec_deactivate(
    p: ProductView,
    title: Seq<u8>,
    reason: Seq<u8>,
    handler: Seq<u8>,
    timestamp: int,
) -> Result<(ProductView, JournalEntryView), SupplyChainError> {
    if !p.is_active {
        Err(SupplyChainError::ProductInactive)
    } else if handler != p.current_owner {
        Err(SupplyChainError::Unauthorized)
    } else if title.len() > MAX_TITLE_BYTES || reason.len() > MAX_MESSAGE_BYTES {
        Err(SupplyChainError::CapacityExceeded)
    } else {
        Ok(
            (
                ProductView {
                    current_status: StatusV::Deactivated,
                    is_active: false,
                    journal_entries_count: p.journal_entries_count + 1,
                    ..p
                },
                JournalEntryView {
                    product_id: p.product_id,
                    owner: handler,
                    timestamp: timestamp,
                    title: title,
                    message: reason,
                    status: StatusV::Deactivated,
                    location: p.current_location,
                    entry_number: p.journal_entries_count,
                },
            ),
        )
    }
}

/// Creates a product and its creation entry (entry 0) from the caller's
/// inputs, the authenticated creator, and the host's clock reading.
pub fn create_product(
    product_id: Vec<u8>,
    name: Vec<u8>,
    description: Vec<u8>,
    initial_notes: Vec<u8>,
    creator: &Principal,
    timestamp: i64,
) -> (r: Result<(ProductState, JournalEntryState), SupplyChainError>)
    ensures
        (match r {
            Ok(pair) => spec_create(
                product_id@,
                name@,
                description@,
                initial_notes@,
                creator@,
                timestamp as int,
            ) == Ok::<(ProductView, JournalEntryView), SupplyChainError>((pair.0@, pair.1@)),
            Err(code) => spec_create(
                product_id@,
                name@,
                description@,
                initial_notes@,
                creator@,
                timestamp as int,
            ) == Err::<(ProductView, JournalEntryView), SupplyChainError>(code),
        }),
{
    if product_id.len() > MAX_PRODUCT_ID_BYTES || name.len() > MAX_NAME_BYTES
        || description.len() > MAX_DESCRIPTION_BYTES || initial_notes.len() > MAX_MESSAGE_BYTES
        || creator.bytes.len() > MAX_PRINCIPAL_BYTES {
        return Err(SupplyChainError::CapacityExceeded);
    }
    let entry_product_id = copy_bytes(&product_id);
    let product = ProductState {
        product_id,
        name,
        description,
        current_owner: creator.duplicate(),
        current_location: origin_location(),
        current_status: Status::Created,
        created_at: timestamp,
        is_active: true,
        journal_entries_count: 1,
    };
    let entry = JournalEntryState {
        product_id: entry_product_id,
        owner: creator.duplicate(),
        timestamp,
        title: registration_title_bytes(),
        message: initial_notes,
        status: Status::Created,
        location: origin_location(),
        entry_number: 0,
    };
    Ok((product, entry))
}

/// Records a caller-supplied status and location update in the journal.
pub fn add_journal_entry(
    product: &mut ProductState,
    title: Vec<u8>,
    message: Vec<u8>,
    new_status: Status,
    new_location: Vec<u8>,
    handler: &Principal,
    timestamp: i64,
) -> (r: Result<JournalEntryState, SupplyChainError>)
    requires
        old(product).journal_entries_count < MAX_JOURNAL_ENTRIES,
    ensures
        (match r {
            Ok(entry) => spec_add_entry(
                old(product)@,
                title@,
                message@,
                new_status@,
                new_location@,
                handler@,
                timestamp as int,
            ) == Ok::<(ProductView, JournalEntryView), SupplyChainError>(
                (final(product)@, entry@),
            ),
            Err(code) => spec_add_entry(
                old(product)@,
                title@,
                message@,
                new_status@,
                new_location@,
                handler@,
                timestamp as int,
            ) == Err::<(ProductView, JournalEntryView), SupplyChainError>(code) && final(product)@
                == old(product)@,
        }),
{
    if !product.is_active {
        return Err(SupplyChainError::ProductInactive);
    }
    if !handler.same_as(&product.current_owner) {
        return Err(SupplyChainError::Unauthorized);
    }
    if title.len() > MAX_TITLE_BYTES || message.len() > MAX_MESSAGE_BYTES || !new_status.fits(
        MAX_ENTRY_STATUS_BYTES,
    ) || new_location.len() > MAX_PRODUCT_LOCATION_BYTES {
        return Err(SupplyChainError::CapacityExceeded);
    }
    let entry_number = product.journal_entries_count;
    let entry = JournalEntryState {
        product_id: copy_bytes(&product.product_id),
        owner: handler.duplicate(),
        timestamp,
        title,
        message,
        status: new_status.duplicate(),
        location: copy_bytes(&new_location),
        entry_number,
    };
    product.current_status = new_status;
    product.current_location = new_location;
    product.journal_entries_count = product.journal_entries_count + 1;
    Ok(entry)
}

/// Transfers custody to `new_owner`; only the current owner may do so.  The
/// entry records the previous owner as the acting custodian.
pub fn transfer_product(
    product: &mut ProductState,
    title: Vec<u8>,
    message: Vec<u8>,
    new_location: Vec<u8>,
    new_owner: Principal,
    caller: &Principal,
    timestamp: i64,
) -> (r: Result<JournalEntryState, SupplyChainError>)
    requires
        old(product).journal_entries_count < MAX_JOURNAL_ENTRIES,
    ensures
        (match r {
            Ok(entry) => spec_transfer(
                old(product)@,
                title@,
                message@,
                new_location@,
                new_owner@,
                caller@,
                timestamp as int,
            ) == Ok::<(ProductView, JournalEntryView), SupplyChainError>(
                (final(product)@, entry@),
            ),
            Err(code) => spec_transfer(
                old(product)@,
                title@,
                message@,
                new_location@,
                new_owner@,
                caller@,
                timestamp as int,
            ) == Err::<(ProductView, JournalEntryView), SupplyChainError>(code) && final(product)@
                == old(product)@,
        }),
{
    if !product.is_active {
        return Err(SupplyChainError::ProductInactive);
    }
    if !caller.same_as(&product.current_owner) {
        return Err(SupplyChainError::Unauthorized);
    }
    if title.len() > MAX_TITLE_BYTES || message.len() > MAX_MESSAGE_BYTES || new_location.len()
        > MAX_PRODUCT_LOCATION_BYTES || new_owner.bytes.len() > MAX_PRINCIPAL_BYTES {
        return Err(SupplyChainError::CapacityExceeded);
    }
    let entry_number = product.journal_entries_count;
    let entry = JournalEntryState {
        product_id: copy_bytes(&product.product_id),
        owner: product.current_owner.duplicate(),
        timestamp,
        title,
        message,
        status: Status::Transferred,
        location: copy_bytes(&new_location),
        entry_number,
    };
    product.current_owner = new_owner;
    product.current_location = new_location;
    product.current_status = Status::Transferred;
    product.journal_entries_count = product.journal_entries_count + 1;
    Ok(entry)
}

/// Marks the product delivered at its current location; only the current
/// owner may do so.
pub fn mark_delivered(
    product: &mut ProductState,
    title: Vec<u8>,
    message: Vec<u8>,
    handler: &Principal,
    timestamp: i64,
) -> (r: Result<JournalEntryState, SupplyChainError>)
    requires
        old(product).journal_entries_count < MAX_JOURNAL_ENTRIES,
    ensures
        (match r {
            Ok(entry) => spec_deliver(
                old(product)@,
                title@,
                message@,
                handler@,
                timestamp as int,
            ) == Ok::<(ProductView, JournalEntryView), SupplyChainError>(
                (final(product)@, entry@),
            ),
            Err(code) => spec_deliver(old(product)@, title@, message@, handler@, timestamp as int)
                == Err::<(ProductView, JournalEntryView), SupplyChainError>(code)
                && final(product)@ == old(product)@,
        }),
{
    if !product.is_active {
        return Err(SupplyChainError::ProductInactive);
    }
    if !handler.same_as(&product.current_owner) {
        return Err(SupplyChainError::Unauthorized);
    }
    if title.len() > MAX_TITLE_BYTES || message.len() > MAX_MESSAGE_BYTES {
        return Err(SupplyChainError::CapacityExceeded);
    }
    let entry_number = product.journal_entries_count;
    let entry = JournalEntryState {
        product_id: copy_bytes(&product.product_id),
        owner: handler.duplicate(),
        timestamp,
        title,
        message,
        status: Status::Delivered,
        location: copy_bytes(&product.current_location),
        entry_number,
    };
    product.current_status = Status::Delivered;
    product.journal_entries_count = product.journal_entries_count + 1;
    Ok(entry)
}

/// Takes the product out of the supply chain for good; only the current
/// owner may do so, and only while the product is still active, so a second
/// deactivation fails with `ProductInactive`.
pub fn deactivate_product(
    product: &mut ProductState,
    title: Vec<u8>,
    reason: Vec<u8>,
    handler: &Principal,
    timestamp: i64,
) -> (r: Result<JournalEntryState, SupplyChainError>)
    requires
        old(product).journal_entries_count < MAX_JOURNAL_ENTRIES,
    ensures
        (match r {
            Ok(entry) => spec_deactivate(
                old(product)@,
                title@,
                reason@,
                handler@,
                timestamp as int,
            ) == Ok::<(ProductView, JournalEntryView), SupplyChainError>(
                (final(product)@, entry@),
            ),
            Err(code) => spec_deactivate(old(product)@, title@, reason@, handler@, timestamp as int)
                == Err::<(ProductView, JournalEntryView), SupplyChainError>(code)
                && final(product)@ == old(product)@,
        }),
{
    if !product.is_active {
        return Err(SupplyChainError::ProductInactive);
    }
    if !handler.same_as(&product.current_owner) {
        return Err(SupplyChainError::Unauthorized);
    }
    if title.len() > MAX_TITLE_BYTES || reason.len() > MAX_MESSAGE_BYTES {
        return Err(SupplyChainError::CapacityExceeded);
    }
    let entry_number = product.journal_entries_count;
    let entry = JournalEntryState {
        product_id: copy_bytes(&product.product_id),
        owner: handler.duplicate(),
        timestamp,
        title,
        message: reason,
        status: Status::Deactivated,
        location: copy_bytes(&product.current_location),
        entry_number,
    };
    product.current_status = Status::Deactivated;
    product.is_active = false;
    product.journal_entries_count = product.journal_entries_count + 1;
    Ok(entry)
}

/// Law: a fresh product counts exactly its creation entry, which is entry 0.
pub proof fn lemma_create_starts_history(
    product_id: Seq<u8>,
    name: Seq<u8>,
    description: Seq<u8>,
    initial_notes: Seq<u8>,
    creator: Seq<u8>,
    timestamp: int,
)
    requires
        spec_create(product_id, name, description, initial_notes, creator, timestamp) is Ok,
    ensures
        ({
            let (p, e) = spec_create(
                product_id,
                name,
                description,
                initial_notes,
                creator,
                timestamp,
            )->Ok_0;
            &&& p.journal_entries_count == 1
            &&& e.entry_number == 0
            &&& product_wf(p)
            &&& entry_caps_ok(e)
        }),
{
}

/// Law: every successful transition operation on an existing product
/// increments the journal counter by exactly one, and numbers its entry with
/// the counter value before the operation — so after N successful operations
/// (create included) the counter is N and the entries are numbered 0..N-1.
pub proof fn lemma_transition_steps_counter(
    p: ProductView,
    title: Seq<u8>,
    message: Seq<u8>,
    new_status: StatusV,
    new_location: Seq<u8>,
    new_owner: Seq<u8>,
    principal: Seq<u8>,
    timestamp: int,
)
    ensures
        (spec_add_entry(p, title, message, new_status, new_location, principal, timestamp) matches
            Ok(pair) ==> pair.0.journal_entries_count == p.journal_entries_count + 1
            && pair.1.entry_number == p.journal_entries_count),
        (spec_transfer(p, title, message, new_location, new_owner, principal, timestamp) matches
            Ok(pair) ==> pair.0.journal_entries_count == p.journal_entries_count + 1
            && pair.1.entry_number == p.journal_entries_count),
        (spec_deliver(p, title, message, principal, timestamp) matches Ok(pair)
            ==> pair.0.journal_entries_count == p.journal_entries_count + 1
            && pair.1.entry_number == p.journal_entries_count),
        (spec_deactivate(p, title, message, principal, timestamp) matches Ok(pair)
            ==> pair.0.journal_entries_count == p.journal_entries_count + 1
            && pair.1.entry_number == p.journal_entries_count),
{
}

/// Law: a transfer invoked by a principal other than the current owner of an
/// active product fails with `Unauthorized` (and, by the operation's
/// contract, leaves the product and its journal unchanged).
pub proof fn lemma_transfer_requires_ownership(
    p: ProductView,
    title: Seq<u8>,
    message: Seq<u8>,
    new_location: Seq<u8>,
    new_owner: Seq<u8>,
    caller: Seq<u8>,
    timestamp: int,
)
    requires
        p.is_active,
        caller != p.current_owner,
    ensures
        spec_transfer(p, title, message, new_location, new_owner, caller, timestamp) == Err::<
            (ProductView, JournalEntryView),
            SupplyChainError,
        >(SupplyChainError::Unauthorized),
{
}

/// Law: deactivation is terminal.  Once deactivate succeeds, the product
/// keeps its pre-deactivation owner and location, carries the Deactivated
/// status with `is_active` false, and every further mutating operation fails
/// with `ProductInactive`.
pub proof fn lemma_deactivate_is_terminal(
    p: ProductView,
    title: Seq<u8>,
    reason: Seq<u8>,
    caller: Seq<u8>,
    timestamp: int,
    title2: Seq<u8>,
    message2: Seq<u8>,
    new_status2: StatusV,
    new_location2: Seq<u8>,
    new_owner2: Seq<u8>,
    caller2: Seq<u8>,
    timestamp2: int,
)
    requires
        spec_deactivate(p, title, reason, caller, timestamp) is Ok,
    ensures
        ({
            let p2 = spec_deactivate(p, title, reason, caller, timestamp)->Ok_0.0;
            &&& !p2.is_active
            &&& p2.current_status == StatusV::Deactivated
            &&& p2.current_owner == p.current_owner
            &&& p2.current_location == p.current_location
            &&& p2.product_id == p.product_id
            &&& p2.name == p.name
            &&& p2.description == p.description
            &&& p2.created_at == p.created_at
            &&& spec_transfer(p2, title2, message2, new_location2, new_owner2, caller2, timestamp2)
                == Err::<(ProductView, JournalEntryView), SupplyChainError>(
                SupplyChainError::ProductInactive,
            )
            &&& spec_deliver(p2, title2, message2, caller2, timestamp2) == Err::<
                (ProductView, JournalEntryView),
                SupplyChainError,
            >(SupplyChainError::ProductInactive)
            &&& spec_add_entry(
                p2,
                title2,
                message2,
                new_status2,
                new_location2,
                caller2,
                timestamp2,
            ) == Err::<(ProductView, JournalEntryView), SupplyChainError>(
                SupplyChainError::ProductInactive,
            )
            &&& spec_deactivate(p2, title2, message2, caller2, timestamp2) == Err::<
                (ProductView, JournalEntryView),
                SupplyChainError,
            >(SupplyChainError::ProductInactive)
        }),
{
}

/// Law: custody changes only through transfer; add-entry, mark-delivered and
/// deactivate preserve `current_owner`, and every operation preserves the
/// identity and display fields and the creation time.
pub proof fn lemma_owner_changes_only_by_transfer(
    p: ProductView,
    title: Seq<u8>,
    message: Seq<u8>,
    new_status: StatusV,
    new_location: Seq<u8>,
    principal: Seq<u8>,
    timestamp: int,
)
    ensures
        (spec_add_entry(p, title, message, new_status, new_location, principal, timestamp) matches
            Ok(pair) ==> pair.0.current_owner == p.current_owner && unchanged_identity(pair.0, p)),
        (spec_deliver(p, title, message, principal, timestamp) matches Ok(pair)
            ==> pair.0.current_owner == p.current_owner && unchanged_identity(pair.0, p)),
        (spec_deactivate(p, title, message, principal, timestamp) matches Ok(pair)
            ==> pair.0.current_owner == p.current_owner && unchanged_identity(pair.0, p)),
        (spec_transfer(p, title, message, new_location, principal, principal, timestamp) matches
            Ok(pair) ==> unchanged_identity(pair.0, p)),
{
}

/// The fields no transition operation ever rewrites.
pub open spec fn unchanged_identity(p2: ProductView, p: ProductView) -> bool {
    &&& p2.product_id == p.product_id
    &&& p2.name == p.name
    &&& p2.description == p.description
    &&& p2.created_at == p.created_at
}

/// Law: every transition operation keeps a well-formed product well-formed,
/// and writes a journal entry whose fields are within their capacities.
pub proof fn lemma_transitions_preserve_wf(
    p: ProductView,
    title: Seq<u8>,
    message: Seq<u8>,
    new_status: StatusV,
    new_location: Seq<u8>,
    new_owner: Seq<u8>,
    principal: Seq<u8>,
    timestamp: int,
)
    requires
        product_wf(p),
    ensures
        (spec_add_entry(p, title, message, new_status, new_location, principal, timestamp) matches
            Ok(pair) ==> product_wf(pair.0) && entry_caps_ok(pair.1)),
        (spec_transfer(p, title, message, new_location, new_owner, principal, timestamp) matches
            Ok(pair) ==> product_wf(pair.0) && entry_caps_ok(pair.1)),
        (spec_deliver(p, title, message, principal, timestamp) matches Ok(pair)
            ==> product_wf(pair.0) && entry_caps_ok(pair.1)),
        (spec_deactivate(p, title, message, principal, timestamp) matches Ok(pair)
            ==> product_wf(pair.0) && entry_caps_ok(pair.1)),
{
}

} // verus!
