use rust_state_machine::balances::Pallet;
use rust_state_machine::support::DispatchError;

#[test]
fn init_balances() {
    let mut balances = Pallet::new();

    assert_eq!(balances.balance(&"alice".to_string()), 0);

    balances.set_balance(&"alice".to_string(), 100);
    assert_eq!(balances.balance(&"alice".to_string()), 100);
    assert_eq!(balances.balance(&"bob".to_string()), 0);
}

#[test]
fn transfer_balance_valid() {
    // alice can transfer funds to bob and the balances update accordingly.
    let mut balances = Pallet::new();

    balances.set_balance(&"alice".to_string(), 100);
    balances.set_balance(&"bob".to_string(), 50);

    let res = balances.transfer("alice".to_string(), "bob".to_string(), 50);

    assert_eq!(res, Ok(()));

    assert_eq!(balances.balance(&"alice".to_string()), 50);
    assert_eq!(balances.balance(&"bob".to_string()), 100);
}

#[test]
fn transfer_balance_insufficient_funds() {
    // balances stay untouched when the transfer would underflow the sender.
    let mut balances = Pallet::new();

    balances.set_balance(&"alice".to_string(), 50);
    balances.set_balance(&"bob".to_string(), 50);

    let res = balances.transfer("alice".to_string(), "bob".to_string(), 200);

    assert_eq!(res, Err(DispatchError::InsufficientFunds));
    assert_eq!(res.unwrap_err().message(), "Not enough funds.");

    assert_eq!(balances.balance(&"alice".to_string()), 50);
    assert_eq!(balances.balance(&"bob".to_string()), 50);
}

#[test]
fn transfer_balance_overflow() {
    // balances stay untouched when the transfer would overflow the recipient.
    let mut balances = Pallet::new();

    balances.set_balance(&"alice".to_string(), 50);
    balances.set_balance(&"bob".to_string(), u128::MAX);

    let res = balances.transfer("alice".to_string(), "bob".to_string(), 1);

    assert_eq!(res, Err(DispatchError::Overflow));
    assert_eq!(res.unwrap_err().message(), "Overflow");

    assert_eq!(balances.balance(&"alice".to_string()), 50);
    assert_eq!(balances.balance(&"bob".to_string()), u128::MAX);
}

#[test]
fn transfer_conserves_total() {
    let mut balances = Pallet::new();

    balances.set_balance(&"alice".to_string(), 100);
    balances.set_balance(&"bob".to_string(), 20);

    let res = balances.transfer("alice".to_string(), "bob".to_string(), 30);

    assert_eq!(res, Ok(()));
    assert_eq!(balances.balance(&"alice".to_string()), 70);
    assert_eq!(balances.balance(&"bob".to_string()), 50);
    assert_eq!(
        balances.balance(&"alice".to_string()) + balances.balance(&"bob".to_string()),
        120
    );
}

#[test]
fn transfer_to_self_is_a_no_op() {
    let mut balances = Pallet::new();

    balances.set_balance(&"alice".to_string(), 30);

    let res = balances.transfer("alice".to_string(), "alice".to_string(), 10);

    assert_eq!(res, Ok(()));
    assert_eq!(balances.balance(&"alice".to_string()), 30);
}

#[test]
fn transfer_to_self_insufficient_funds() {
    let mut balances = Pallet::new();

    balances.set_balance(&"alice".to_string(), 30);

    let res = balances.transfer("alice".to_string(), "alice".to_string(), 40);

    assert_eq!(res, Err(DispatchError::InsufficientFunds));
    assert_eq!(balances.balance(&"alice".to_string()), 30);
}
