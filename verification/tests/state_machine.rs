use solog::ledger::ProductLedger;
use solog::records::Principal;
use solog::records::Status;
use solog::registry::Registry;
use solog::transitions::create_product;
use solog::transitions::deactivate_product;
use solog::transitions::mark_delivered;
use solog::transitions::transfer_product;
use solog::SupplyChainError;

fn principal(name: &str) -> Principal {
    Principal::new(name.as_bytes().to_vec())
}

#[test]
fn create_product_initializes_record() {
    let alice = principal("alice");
    let (product, entry) = create_product(
        b"P1".to_vec(),
        b"Widget".to_vec(),
        b"desc".to_vec(),
        b"first note".to_vec(),
        &alice,
        1_700_000_000,
    )
    .unwrap();

    assert_eq!(product.product_id, b"P1".to_vec());
    assert_eq!(product.name, b"Widget".to_vec());
    assert_eq!(product.description, b"desc".to_vec());
    assert_eq!(product.current_owner.bytes, b"alice".to_vec());
    assert!(matches!(product.current_status, Status::Created));
    assert_eq!(product.current_location, b"Origin".to_vec());
    assert_eq!(product.created_at, 1_700_000_000);
    assert!(product.is_active);
    assert_eq!(product.journal_entries_count, 1);

    assert_eq!(entry.product_id, b"P1".to_vec());
    assert_eq!(entry.owner.bytes, b"alice".to_vec());
    assert_eq!(entry.timestamp, 1_700_000_000);
    assert_eq!(entry.title, b"Product Registration".to_vec());
    assert_eq!(entry.message, b"first note".to_vec());
    assert!(matches!(entry.status, Status::Created));
    assert_eq!(entry.location, b"Origin".to_vec());
    assert_eq!(entry.entry_number, 0);
}

#[test]
fn full_custody_scenario() {
    let alice = principal("alice");
    let bob = principal("bob");
    let (mut product, _entry0) = create_product(
        b"P1".to_vec(),
        b"Widget".to_vec(),
        b"desc".to_vec(),
        b"first note".to_vec(),
        &alice,
        100,
    )
    .unwrap();

    let entry1 = transfer_product(
        &mut product,
        b"moved".to_vec(),
        b"gone".to_vec(),
        b"warehouse".to_vec(),
        bob,
        &alice,
        200,
    )
    .unwrap();
    assert_eq!(product.current_owner.bytes, b"bob".to_vec());
    assert!(matches!(product.current_status, Status::Transferred));
    assert_eq!(product.current_location, b"warehouse".to_vec());
    assert_eq!(product.journal_entries_count, 2);
    assert_eq!(entry1.owner.bytes, b"alice".to_vec());
    assert!(matches!(entry1.status, Status::Transferred));
    assert_eq!(entry1.location, b"warehouse".to_vec());
    assert_eq!(entry1.entry_number, 1);

    let bob = principal("bob");
    let entry2 = mark_delivered(
        &mut product,
        b"arrived".to_vec(),
        b"all good".to_vec(),
        &bob,
        300,
    )
    .unwrap();
    assert!(matches!(product.current_status, Status::Delivered));
    assert_eq!(product.current_location, b"warehouse".to_vec());
    assert_eq!(product.journal_entries_count, 3);
    assert_eq!(entry2.owner.bytes, b"bob".to_vec());
    assert!(matches!(entry2.status, Status::Delivered));
    assert_eq!(entry2.location, b"warehouse".to_vec());
    assert_eq!(entry2.entry_number, 2);
}

#[test]
fn duplicate_product_id_rejected() {
    let alice = principal("alice");
    let mallory = principal("mallory");
    let mut registry = Registry::new();
    registry
        .create_product(
            b"P1".to_vec(),
            b"Widget".to_vec(),
            b"desc".to_vec(),
            b"first note".to_vec(),
            &alice,
            100,
        )
        .unwrap();
    let second = registry.create_product(
        b"P1".to_vec(),
        b"Counterfeit".to_vec(),
        b"other".to_vec(),
        b"note".to_vec(),
        &mallory,
        200,
    );
    assert_eq!(second, Err(SupplyChainError::DuplicateProduct));

    assert_eq!(registry.ledgers.len(), 1);
    let first = &registry.ledgers[0];
    assert_eq!(first.product.name, b"Widget".to_vec());
    assert_eq!(first.product.current_owner.bytes, b"alice".to_vec());
    assert_eq!(first.product.journal_entries_count, 1);
    assert_eq!(first.entries.len(), 1);
}

#[test]
fn unauthorized_transfer_rejected() {
    let alice = principal("alice");
    let mallory = principal("mallory");
    let carol = principal("carol");
    let mut ledger = ProductLedger::create(
        b"P1".to_vec(),
        b"Widget".to_vec(),
        b"desc".to_vec(),
        b"first note".to_vec(),
        &alice,
        100,
    )
    .unwrap();

    let attempt = ledger.transfer(
        1,
        b"grab".to_vec(),
        b"mine now".to_vec(),
        b"hideout".to_vec(),
        carol,
        &mallory,
        200,
    );
    assert_eq!(attempt, Err(SupplyChainError::Unauthorized));
    assert_eq!(ledger.product.current_owner.bytes, b"alice".to_vec());
    assert!(matches!(ledger.product.current_status, Status::Created));
    assert_eq!(ledger.product.current_location, b"Origin".to_vec());
    assert_eq!(ledger.product.journal_entries_count, 1);
    assert_eq!(ledger.entries.len(), 1);
}

#[test]
fn deactivate_is_terminal() {
    let alice = principal("alice");
    let bob = principal("bob");
    let (mut product, _entry0) = create_product(
        b"P1".to_vec(),
        b"Widget".to_vec(),
        b"desc".to_vec(),
        b"first note".to_vec(),
        &alice,
        100,
    )
    .unwrap();

    let entry1 = deactivate_product(
        &mut product,
        b"retired".to_vec(),
        b"end of life".to_vec(),
        &alice,
        200,
    )
    .unwrap();
    assert!(!product.is_active);
    assert!(matches!(product.current_status, Status::Deactivated));
    assert_eq!(product.current_owner.bytes, b"alice".to_vec());
    assert_eq!(product.current_location, b"Origin".to_vec());
    assert_eq!(product.journal_entries_count, 2);
    assert_eq!(entry1.message, b"end of life".to_vec());
    assert!(matches!(entry1.status, Status::Deactivated));

    let transfer_attempt = transfer_product(
        &mut product,
        b"t".to_vec(),
        b"m".to_vec(),
        b"elsewhere".to_vec(),
        bob,
        &alice,
        300,
    );
    assert!(matches!(transfer_attempt, Err(SupplyChainError::ProductInactive)));

    let deliver_attempt = mark_delivered(&mut product, b"t".to_vec(), b"m".to_vec(), &alice, 400);
    assert!(matches!(deliver_attempt, Err(SupplyChainError::ProductInactive)));

    let again = deactivate_product(&mut product, b"t".to_vec(), b"m".to_vec(), &alice, 500);
    assert!(matches!(again, Err(SupplyChainError::ProductInactive)));

    assert_eq!(product.current_owner.bytes, b"alice".to_vec());
    assert_eq!(product.current_location, b"Origin".to_vec());
    assert!(matches!(product.current_status, Status::Deactivated));
    assert!(!product.is_active);
    assert_eq!(product.journal_entries_count, 2);
}

#[test]
fn journal_numbers_are_contiguous() {
    let alice = principal("alice");
    let bob = principal("bob");
    let mut ledger = ProductLedger::create(
        b"P1".to_vec(),
        b"Widget".to_vec(),
        b"desc".to_vec(),
        b"first note".to_vec(),
        &alice,
        100,
    )
    .unwrap();

    ledger
        .add_entry(
            1,
            b"inspected".to_vec(),
            b"quality check".to_vec(),
            Status::Custom(b"In Review".to_vec()),
            b"lab".to_vec(),
            &alice,
            200,
        )
        .unwrap();
    ledger
        .transfer(
            2,
            b"moved".to_vec(),
            b"gone".to_vec(),
            b"warehouse".to_vec(),
            bob,
            &alice,
            300,
        )
        .unwrap();
    let bob = principal("bob");
    ledger
        .deliver(3, b"arrived".to_vec(), b"all good".to_vec(), &bob, 400)
        .unwrap();

    assert_eq!(ledger.product.journal_entries_count, 4);
    assert_eq!(ledger.entries.len(), 4);
    for (k, entry) in ledger.entries.iter().enumerate() {
        assert_eq!(entry.entry_number as usize, k);
        assert_eq!(entry.product_id, b"P1".to_vec());
    }
}

#[test]
fn stale_counter_conflicts() {
    let alice = principal("alice");
    let bob = principal("bob");
    let mut ledger = ProductLedger::create(
        b"P1".to_vec(),
        b"Widget".to_vec(),
        b"desc".to_vec(),
        b"first note".to_vec(),
        &alice,
        100,
    )
    .unwrap();
    ledger
        .transfer(
            1,
            b"moved".to_vec(),
            b"gone".to_vec(),
            b"warehouse".to_vec(),
            bob,
            &alice,
            200,
        )
        .unwrap();

    // A second writer built its update against the counter as it stood
    // before the transfer: its claimed sequence number is already taken.
    let carol = principal("carol");
    let bob = principal("bob");
    let stale = ledger.transfer(
        1,
        b"moved again".to_vec(),
        b"gone".to_vec(),
        b"port".to_vec(),
        carol,
        &bob,
        300,
    );
    assert_eq!(stale, Err(SupplyChainError::ConcurrentSequenceConflict));
    assert_eq!(ledger.product.current_owner.bytes, b"bob".to_vec());
    assert_eq!(ledger.product.journal_entries_count, 2);
    assert_eq!(ledger.entries.len(), 2);

    // Re-reading the counter and retrying succeeds.
    let carol = principal("carol");
    let bob = principal("bob");
    let retried = ledger.transfer(
        2,
        b"moved again".to_vec(),
        b"gone".to_vec(),
        b"port".to_vec(),
        carol,
        &bob,
        400,
    );
    assert_eq!(retried, Ok(()));
    assert_eq!(ledger.product.current_owner.bytes, b"carol".to_vec());
    assert_eq!(ledger.product.journal_entries_count, 3);
}

#[test]
fn add_entry_requires_ownership_and_activity() {
    let alice = principal("alice");
    let mallory = principal("mallory");
    let mut ledger = ProductLedger::create(
        b"P1".to_vec(),
        b"Widget".to_vec(),
        b"desc".to_vec(),
        b"first note".to_vec(),
        &alice,
        100,
    )
    .unwrap();

    let attempt = ledger.add_entry(
        1,
        b"note".to_vec(),
        b"text".to_vec(),
        Status::Custom(b"Lost".to_vec()),
        b"nowhere".to_vec(),
        &mallory,
        200,
    );
    assert_eq!(attempt, Err(SupplyChainError::Unauthorized));
    assert!(matches!(ledger.product.current_status, Status::Created));
    assert_eq!(ledger.entries.len(), 1);

    ledger
        .add_entry(
            1,
            b"inspected".to_vec(),
            b"quality check".to_vec(),
            Status::Custom(b"In Review".to_vec()),
            b"lab".to_vec(),
            &alice,
            300,
        )
        .unwrap();
    assert!(
        matches!(&ledger.product.current_status, Status::Custom(label) if label == &b"In Review".to_vec())
    );
    assert_eq!(ledger.product.current_location, b"lab".to_vec());
    assert_eq!(ledger.product.journal_entries_count, 2);
    let entry = &ledger.entries[1];
    assert_eq!(entry.owner.bytes, b"alice".to_vec());
    assert_eq!(entry.title, b"inspected".to_vec());
    assert_eq!(entry.entry_number, 1);
}

#[test]
fn capacity_exceeded_on_oversized_fields() {
    let alice = principal("alice");
    let bob = principal("bob");

    let long_id = vec![b'x'; 51];
    let created = create_product(
        long_id,
        b"Widget".to_vec(),
        b"desc".to_vec(),
        b"note".to_vec(),
        &alice,
        100,
    );
    assert!(matches!(created, Err(SupplyChainError::CapacityExceeded)));

    let (mut product, _entry0) = create_product(
        b"P1".to_vec(),
        b"Widget".to_vec(),
        b"desc".to_vec(),
        b"note".to_vec(),
        &alice,
        100,
    )
    .unwrap();

    let long_title = vec![b't'; 101];
    let deliver = mark_delivered(&mut product, long_title, b"m".to_vec(), &alice, 200);
    assert!(matches!(deliver, Err(SupplyChainError::CapacityExceeded)));

    let long_location = vec![b'l'; 51];
    let transfer = transfer_product(
        &mut product,
        b"t".to_vec(),
        b"m".to_vec(),
        long_location,
        bob,
        &alice,
        300,
    );
    assert!(matches!(transfer, Err(SupplyChainError::CapacityExceeded)));

    let long_reason = vec![b'r'; 1001];
    let deactivate = deactivate_product(&mut product, b"t".to_vec(), long_reason, &alice, 400);
    assert!(matches!(deactivate, Err(SupplyChainError::CapacityExceeded)));

    // Every attempt failed before any mutation.
    assert!(product.is_active);
    assert!(matches!(product.current_status, Status::Created));
    assert_eq!(product.journal_entries_count, 1);
}
