//! The two record types of the system — the product's current state and one
//! immutable journal entry — together with their mathematical views,
//! capacity limits and well-formedness conditions.

use vstd::prelude::*;

verus! {

/// Reserved capacity, in bytes, of `ProductState::product_id`.
pub const MAX_PRODUCT_ID_BYTES: usize = 50;

/// Reserved capacity, in bytes, of `ProductState::name`.
pub const MAX_NAME_BYTES: usize = 100;

/// Reserved capacity, in bytes, of `ProductState::description`.
pub const MAX_DESCRIPTION_BYTES: usize = 500;

/// Reserved capacity, in bytes, of `ProductState::current_location`.
pub const MAX_PRODUCT_LOCATION_BYTES: usize = 50;

/// Reserved capacity, in bytes, of a custom `ProductState::current_status` label.
pub const MAX_PRODUCT_STATUS_BYTES: usize = 100;

/// Reserved capacity, in bytes, of `JournalEntryState::title`.
pub const MAX_TITLE_BYTES: usize = 100;

/// Reserved capacity, in bytes, of `JournalEntryState::message`.
pub const MAX_MESSAGE_BYTES: usize = 1000;

/// Reserved capacity, in bytes, of a custom `JournalEntryState::status` label.
pub const MAX_ENTRY_STATUS_BYTES: usize = 50;

/// Reserved capacity, in bytes, of `JournalEntryState::location`.
pub const MAX_ENTRY_LOCATION_BYTES: usize = 100;

/// Reserved capacity, in bytes, of a principal's identity.
pub const MAX_PRINCIPAL_BYTES: usize = 32;

/// The journal counter is stored in one byte, so a product's history is
/// bounded by this many entries.
pub const MAX_JOURNAL_ENTRIES: u8 = 255;

/// The identity of a principal, exactly as the external identity gate
/// reports it.  The core never interprets it; it only stores identities and
/// compares them for equality.
pub struct Principal {
    pub bytes: Vec<u8>,
}

impl View for Principal {
    type V = Seq<u8>;

    open spec fn view(&self) -> Seq<u8> {
        self.bytes@
    }
}

impl Principal {
    /// Wraps an identity handed in by the host.
    pub fn new(bytes: Vec<u8>) -> (r: Principal)
        ensures
            r@ == bytes@,
    {
        Principal { bytes }
    }

    /// A copy holding the same identity.
    pub fn duplicate(&self) -> (r: Principal)
        ensures
            r@ == self@,
    {
        Principal { bytes: copy_bytes(&self.bytes) }
    }

    /// Whether two principals are the same identity.
    pub fn same_as(&self, other: &Principal) -> (r: bool)
        ensures
            r == (self@ == other@),
    {
        bytes_eq(&self.bytes, &other.bytes)
    }
}

/// A product's status.  Every operation but add-entry writes one of the four
/// fixed labels; add-entry may record any caller-supplied label.
pub enum Status {
    Created,
    Transferred,
    Delivered,
    Deactivated,
    Custom(Vec<u8>),
}

/// The mathematical value of a `Status`.
#[verifier::ext_equal]
pub ghost enum StatusV {
    Created,
    Transferred,
    Delivered,
    Deactivated,
    Custom(Seq<u8>),
}

impl View for Status {
    type V = StatusV;

    open spec fn view(&self) -> StatusV {
        match self {
            Status::Created => StatusV::Created,
            Status::Transferred => StatusV::Transferred,
            Status::Delivered => StatusV::Delivered,
            Status::Deactivated => StatusV::Deactivated,
            Status::Custom(label) => StatusV::Custom(label@),
        }
    }
}

/// Whether a status fits in a reserved capacity of `cap` bytes.  The fixed
/// labels always fit; a custom label must be within the capacity.
pub open spec fn status_fits(s: StatusV, cap: int) -> bool {
    match s {
        StatusV::Custom(label) => label.len() <= cap,
        _ => true,
    }
}

impl Status {
    /// A copy holding the same status.
    pub fn duplicate(&self) -> (r: Status)
        ensures
            r@ == self@,
    {
        match self {
            Status::Created => Status::Created,
            Status::Transferred => Status::Transferred,
            Status::Delivered => Status::Delivered,
            Status::Deactivated => Status::Deactivated,
            Status::Custom(label) => Status::Custom(copy_bytes(label)),
        }
    }

    /// Whether this status fits in `cap` bytes.
    pub fn fits(&self, cap: usize) -> (r: bool)
        ensures
            r == status_fits(self@, cap as int),
    {
        match self {
            Status::Custom(label) => label.len() <= cap,
            _ => true,
        }
    }
}

/// The current-state record of one tracked item.
pub struct ProductState {
    /// Externally chosen stable identifier; immutable; the input from which
    /// this record's storage address is derived.
    pub product_id: Vec<u8>,
    /// Display metadata, set at creation and never mutated.
    pub name: Vec<u8>,
    /// Display metadata, set at creation and never mutated.
    pub description: Vec<u8>,
    /// The principal currently holding custody; mutated only by transfer.
    pub current_owner: Principal,
    /// Free-text location; mutated by transfer and add-entry.
    pub current_location: Vec<u8>,
    /// Status label; mutated by every transition operation except create.
    pub current_status: Status,
    /// Timestamp set once at creation.
    pub created_at: i64,
    /// Starts true; set to false only by deactivate, never back to true.
    pub is_active: bool,
    /// Number of journal entries written so far; also the next entry's
    /// sequence number.  Starts at 1 (the creation entry) and grows by
    /// exactly 1 on every subsequent transition operation.
    pub journal_entries_count: u8,
}

/// The mathematical value of a `ProductState`.
#[verifier::ext_equal]
pub ghost struct ProductView {
    pub product_id: Seq<u8>,
    pub name: Seq<u8>,
    pub description: Seq<u8>,
    pub current_owner: Seq<u8>,
    pub current_location: Seq<u8>,
    pub current_status: StatusV,
    pub created_at: int,
    pub is_active: bool,
    pub journal_entries_count: int,
}

impl View for ProductState {
    type V = ProductView;

    open spec fn view(&self) -> ProductView {
        ProductView {
            product_id: self.product_id@,
            name: self.name@,
            description: self.description@,
            current_owner: self.current_owner@,
            current_location: self.current_location@,
            current_status: self.current_status@,
            created_at: self.created_at as int,
            is_active: self.is_active,
            journal_entries_count: self.journal_entries_count as int,
        }
    }
}

/// Every field of a product within its reserved capacity.
pub open spec fn product_caps_ok(p: ProductView) -> bool {
    &&& p.product_id.len() <= MAX_PRODUCT_ID_BYTES
    &&& p.name.len() <= MAX_NAME_BYTES
    &&& p.description.len() <= MAX_DESCRIPTION_BYTES
    &&& p.current_owner.len() <= MAX_PRINCIPAL_BYTES
    &&& p.current_location.len() <= MAX_PRODUCT_LOCATION_BYTES
    &&& status_fits(p.current_status, MAX_PRODUCT_STATUS_BYTES as int)
}

/// A well-formed product: fields within capacity, and at least the creation
/// entry counted.
pub open spec fn product_wf(p: ProductView) -> bool {
    &&& product_caps_ok(p)
    &&& p.journal_entries_count >= 1
}

/// One immutable historical event in a product's journal.
pub struct JournalEntryState {
    /// Back-reference to the owning product, as a plain foreign key: the
    /// product's stable identifier.
    pub product_id: Vec<u8>,
    /// The principal who was custodian at the time of this event.
    pub owner: Principal,
    /// Event time, immutable.
    pub timestamp: i64,
    /// Free text describing the event.
    pub title: Vec<u8>,
    /// Free text describing the event.
    pub message: Vec<u8>,
    /// Snapshot of the product's status immediately after this event.
    pub status: Status,
    /// Snapshot of the product's location immediately after this event.
    pub location: Vec<u8>,
    /// The sequence position of this entry: contiguous from 0, no gaps, no
    /// duplicates within one product's journal.
    pub entry_number: u8,
}

/// The mathematical value of a `JournalEntryState`.
#[verifier::ext_equal]
pub ghost struct JournalEntryView {
    pub product_id: Seq<u8>,
    pub owner: Seq<u8>,
    pub timestamp: int,
    pub title: Seq<u8>,
    pub message: Seq<u8>,
    pub status: StatusV,
    pub location: Seq<u8>,
    pub entry_number: int,
}

impl View for JournalEntryState {
    type V = JournalEntryView;

    open spec fn view(&self) -> JournalEntryView {
        JournalEntryView {
            product_id: self.product_id@,
            owner: self.owner@,
            timestamp: self.timestamp as int,
            title: self.title@,
            message: self.message@,
            status: self.status@,
            location: self.location@,
            entry_number: self.entry_number as int,
        }
    }
}

/// Every field of a journal entry within its reserved capacity.
pub open spec fn entry_caps_ok(e: JournalEntryView) -> bool {
    &&& e.product_id.len() <= MAX_PRODUCT_ID_BYTES
    &&& e.owner.len() <= MAX_PRINCIPAL_BYTES
    &&& e.title.len() <= MAX_TITLE_BYTES
    &&& e.message.len() <= MAX_MESSAGE_BYTES
    &&& status_fits(e.status, MAX_ENTRY_STATUS_BYTES as int)
    &&& e.location.len() <= MAX_ENTRY_LOCATION_BYTES
}

/// Whether two byte strings hold the same bytes.
pub fn bytes_eq(a: &Vec<u8>, b: &Vec<u8>) -> (r: bool)
    ensures
        r == (a@ == b@),
{
    if a.len() != b.len() {
        return false;
    }
    let mut i: usize = 0;
    while i < a.len()
        invariant
            i <= a@.len(),
            a@.len() == b@.len(),
            forall|j: int| 0 <= j < i ==> a@[j] == b@[j],
        decreases a@.len() - i,
    {
        if a[i] != b[i] {
            return false;
        }
        i = i + 1;
    }
    proof {
        assert(a@ =~= b@);
    }
    true
}

/// A copy of a byte string.
pub fn copy_bytes(v: &Vec<u8>) -> (r: Vec<u8>)
    ensures
        r@ == v@,
{
    let mut r: Vec<u8> = Vec::new();
    let mut i: usize = 0;
    while i < v.len()
        invariant
            i <= v@.len(),
            r@ == v@.subrange(0, i as int),
        decreases v@.len() - i,
    {
        r.push(v[i]);
        proof {
            assert(r@ =~= v@.subrange(0, i as int + 1));
        }
        i = i + 1;
    }
    proof {
        assert(v@.subrange(0, v@.len() as int) =~= v@);
    }
    r
}

} // verus!
