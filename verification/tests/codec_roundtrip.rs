use solog::codec::decode_entry;
use solog::codec::decode_product;
use solog::codec::encode_entry;
use solog::codec::encode_product;
use solog::records::JournalEntryState;
use solog::records::Principal;
use solog::records::ProductState;
use solog::records::Status;
use solog::transitions::create_product;
use solog::SupplyChainError;

fn sample_product() -> ProductState {
    ProductState {
        product_id: b"P1".to_vec(),
        name: b"Widget".to_vec(),
        description: b"a widget".to_vec(),
        current_owner: Principal::new(b"alice".to_vec()),
        current_location: b"warehouse".to_vec(),
        current_status: Status::Custom(b"In Review".to_vec()),
        created_at: -1_234_567,
        is_active: true,
        journal_entries_count: 3,
    }
}

fn sample_entry() -> JournalEntryState {
    JournalEntryState {
        product_id: b"P1".to_vec(),
        owner: Principal::new(b"bob".to_vec()),
        timestamp: i64::MIN,
        title: b"moved".to_vec(),
        message: b"".to_vec(),
        status: Status::Transferred,
        location: b"port".to_vec(),
        entry_number: 7,
    }
}

#[test]
fn product_roundtrip_reproduces_fields() {
    let product = sample_product();
    let bytes = encode_product(&product).unwrap();
    let back = decode_product(&bytes).unwrap();
    assert_eq!(back.product_id, product.product_id);
    assert_eq!(back.name, product.name);
    assert_eq!(back.description, product.description);
    assert_eq!(back.current_owner.bytes, product.current_owner.bytes);
    assert_eq!(back.current_location, product.current_location);
    assert!(
        matches!(&back.current_status, Status::Custom(label) if label == &b"In Review".to_vec())
    );
    assert_eq!(back.created_at, product.created_at);
    assert_eq!(back.is_active, product.is_active);
    assert_eq!(back.journal_entries_count, product.journal_entries_count);
}

#[test]
fn created_product_roundtrips() {
    let alice = Principal::new(b"alice".to_vec());
    let (product, entry) = create_product(
        b"P1".to_vec(),
        b"Widget".to_vec(),
        b"desc".to_vec(),
        b"first note".to_vec(),
        &alice,
        1_700_000_000,
    )
    .unwrap();

    let back = decode_product(&encode_product(&product).unwrap()).unwrap();
    assert_eq!(back.product_id, b"P1".to_vec());
    assert!(matches!(back.current_status, Status::Created));
    assert_eq!(back.current_location, b"Origin".to_vec());
    assert_eq!(back.journal_entries_count, 1);
    assert!(back.is_active);

    let entry_back = decode_entry(&encode_entry(&entry).unwrap()).unwrap();
    assert_eq!(entry_back.title, b"Product Registration".to_vec());
    assert_eq!(entry_back.message, b"first note".to_vec());
    assert_eq!(entry_back.owner.bytes, b"alice".to_vec());
    assert_eq!(entry_back.entry_number, 0);
}

#[test]
fn entry_roundtrip_reproduces_fields() {
    let entry = sample_entry();
    let bytes = encode_entry(&entry).unwrap();
    let back = decode_entry(&bytes).unwrap();
    assert_eq!(back.product_id, entry.product_id);
    assert_eq!(back.owner.bytes, entry.owner.bytes);
    assert_eq!(back.timestamp, i64::MIN);
    assert_eq!(back.title, entry.title);
    assert_eq!(back.message, b"".to_vec());
    assert!(matches!(back.status, Status::Transferred));
    assert_eq!(back.location, entry.location);
    assert_eq!(back.entry_number, 7);
}

#[test]
fn encode_rejects_oversized_fields() {
    let mut product = sample_product();
    product.product_id = vec![b'x'; 51];
    assert!(matches!(
        encode_product(&product),
        Err(SupplyChainError::CapacityExceeded)
    ));

    let mut entry = sample_entry();
    entry.status = Status::Custom(vec![b's'; 51]);
    assert!(matches!(
        encode_entry(&entry),
        Err(SupplyChainError::CapacityExceeded)
    ));
}

#[test]
fn decode_rejects_malformed_bytes() {
    let product = sample_product();
    let mut bytes = encode_product(&product).unwrap();

    // Truncated record.
    bytes.pop();
    assert!(decode_product(&bytes).is_none());

    // Trailing garbage.
    let mut padded = encode_product(&product).unwrap();
    padded.push(0);
    padded.push(0);
    assert!(decode_product(&padded).is_none());

    // Too short to hold any field.
    assert!(decode_product(&vec![1, 2, 3]).is_none());
    assert!(decode_entry(&vec![]).is_none());

    // A zero journal counter is not a valid product record.
    let mut zero_count = encode_product(&product).unwrap();
    let last = zero_count.len() - 1;
    zero_count[last] = 0;
    assert!(decode_product(&zero_count).is_none());
}
