use rust_state_machine::system::Pallet;

#[test]
fn init_system() {
    let mut system = Pallet::new();

    // Increment the current block number.
    system.inc_block_number();

    // Increment the nonce of `alice`.
    system.inc_nonce(&"alice".to_string());

    // Check the block number is what we expect.
    assert_eq!(system.block_number(), 1);

    // Check the nonce of `alice` is what we expect.
    assert_eq!(system.nonce(&"alice".to_string()), 1);
}

#[test]
fn nonce_counts_every_increment() {
    let mut system = Pallet::new();

    assert_eq!(system.nonce(&"alice".to_string()), 0);

    system.inc_nonce(&"alice".to_string());
    system.inc_nonce(&"alice".to_string());
    system.inc_nonce(&"alice".to_string());

    assert_eq!(system.nonce(&"alice".to_string()), 3);
    assert_eq!(system.nonce(&"bob".to_string()), 0);
}

#[test]
fn block_number_starts_at_zero() {
    let mut system = Pallet::new();

    assert_eq!(system.block_number(), 0);

    system.inc_block_number();
    system.inc_block_number();

    assert_eq!(system.block_number(), 2);
}
