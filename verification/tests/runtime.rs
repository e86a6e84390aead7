use rust_state_machine::balances::Call as BalancesCall;
use rust_state_machine::proof_of_existence::Call as ProofOfExistenceCall;
use rust_state_machine::support::{Block, DispatchError, Extrinsic, Header};
use rust_state_machine::Runtime;
use rust_state_machine::RuntimeCall;

#[test]
fn first_block_transfers_funds() {
    let mut runtime = Runtime::new();
    let alice = "alice".to_string();
    let bob = "bob".to_string();

    runtime.balances.set_balance(&alice, 100);

    let block_1 = Block {
        header: Header { block_number: 1 },
        extrinsics: vec![Extrinsic {
            caller: alice.clone(),
            call: RuntimeCall::Balances(BalancesCall::Transfer { to: bob.clone(), amount: 20 }),
        }],
    };

    assert_eq!(runtime.execute_block(block_1), Ok(()));

    assert_eq!(runtime.balances.balance(&alice), 80);
    assert_eq!(runtime.balances.balance(&bob), 20);
    assert_eq!(runtime.system.nonce(&alice), 1);
    assert_eq!(runtime.system.block_number(), 1);
}

#[test]
fn stale_block_number_rejects_whole_block() {
    let mut runtime = Runtime::new();
    let alice = "alice".to_string();
    let bob = "bob".to_string();

    runtime.balances.set_balance(&alice, 100);

    let block_1 = Block {
        header: Header { block_number: 1 },
        extrinsics: vec![],
    };
    assert_eq!(runtime.execute_block(block_1), Ok(()));
    assert_eq!(runtime.system.block_number(), 1);

    // A block carrying the stale number 1 while the next expected number is
    // 2: the counter still advances, the block is rejected, and no extrinsic
    // runs.
    let stale_block = Block {
        header: Header { block_number: 1 },
        extrinsics: vec![Extrinsic {
            caller: alice.clone(),
            call: RuntimeCall::Balances(BalancesCall::Transfer { to: bob.clone(), amount: 20 }),
        }],
    };

    let res = runtime.execute_block(stale_block);
    assert_eq!(res, Err(DispatchError::BlockNumberMismatch));
    assert_eq!(
        res.unwrap_err().message(),
        "Block number does not match current block number."
    );

    assert_eq!(runtime.system.block_number(), 2);
    assert_eq!(runtime.balances.balance(&alice), 100);
    assert_eq!(runtime.balances.balance(&bob), 0);
    assert_eq!(runtime.system.nonce(&alice), 0);
}

#[test]
fn failed_extrinsic_does_not_stop_the_block() {
    let mut runtime = Runtime::new();
    let alice = "alice".to_string();
    let bob = "bob".to_string();

    // alice claims "X"; later in the same block bob tries to claim "X" too.
    let block_1 = Block {
        header: Header { block_number: 1 },
        extrinsics: vec![
            Extrinsic {
                caller: alice.clone(),
                call: RuntimeCall::ProofOfExistence(ProofOfExistenceCall::CreateClaim {
                    content: "X".to_string(),
                }),
            },
            Extrinsic {
                caller: bob.clone(),
                call: RuntimeCall::ProofOfExistence(ProofOfExistenceCall::CreateClaim {
                    content: "X".to_string(),
                }),
            },
        ],
    };

    // The block as a whole still reports success.
    assert_eq!(runtime.execute_block(block_1), Ok(()));

    // The first claim went through and the second changed nothing.
    assert_eq!(
        runtime.proof_of_existence.get_claim(&"X".to_string()),
        Some(&alice)
    );

    // Both callers paid a nonce, the failed dispatch included.
    assert_eq!(runtime.system.nonce(&alice), 1);
    assert_eq!(runtime.system.nonce(&bob), 1);
}

#[test]
fn nonce_persists_across_failed_dispatches() {
    let mut runtime = Runtime::new();
    let alice = "alice".to_string();
    let bob = "bob".to_string();

    // alice holds nothing, so every transfer she submits fails.
    let block_1 = Block {
        header: Header { block_number: 1 },
        extrinsics: vec![
            Extrinsic {
                caller: alice.clone(),
                call: RuntimeCall::Balances(BalancesCall::Transfer {
                    to: bob.clone(),
                    amount: 7,
                }),
            },
            Extrinsic {
                caller: alice.clone(),
                call: RuntimeCall::Balances(BalancesCall::Transfer {
                    to: bob.clone(),
                    amount: 7,
                }),
            },
        ],
    };

    assert_eq!(runtime.execute_block(block_1), Ok(()));

    assert_eq!(runtime.balances.balance(&alice), 0);
    assert_eq!(runtime.balances.balance(&bob), 0);
    assert_eq!(runtime.system.nonce(&alice), 2);
}

#[test]
fn blocks_execute_in_sequence() {
    let mut runtime = Runtime::new();
    let alice = "alice".to_string();
    let bob = "bob".to_string();

    runtime.balances.set_balance(&alice, 100);

    let block_1 = Block {
        header: Header { block_number: 1 },
        extrinsics: vec![Extrinsic {
            caller: alice.clone(),
            call: RuntimeCall::Balances(BalancesCall::Transfer { to: bob.clone(), amount: 20 }),
        }],
    };
    let block_2 = Block {
        header: Header { block_number: 2 },
        extrinsics: vec![Extrinsic {
            caller: alice.clone(),
            call: RuntimeCall::ProofOfExistence(ProofOfExistenceCall::CreateClaim {
                content: "Hello, World!".to_string(),
            }),
        }],
    };

    assert_eq!(runtime.execute_block(block_1), Ok(()));
    assert_eq!(runtime.execute_block(block_2), Ok(()));

    assert_eq!(runtime.system.block_number(), 2);
    assert_eq!(runtime.balances.balance(&alice), 80);
    assert_eq!(runtime.balances.balance(&bob), 20);
    assert_eq!(
        runtime.proof_of_existence.get_claim(&"Hello, World!".to_string()),
        Some(&alice)
    );
    assert_eq!(runtime.system.nonce(&alice), 2);
}

#[test]
fn revoke_claim_through_dispatch() {
    let mut runtime = Runtime::new();
    let alice = "alice".to_string();

    let block_1 = Block {
        header: Header { block_number: 1 },
        extrinsics: vec![
            Extrinsic {
                caller: alice.clone(),
                call: RuntimeCall::ProofOfExistence(ProofOfExistenceCall::CreateClaim {
                    content: "deed".to_string(),
                }),
            },
            Extrinsic {
                caller: alice.clone(),
                call: RuntimeCall::ProofOfExistence(ProofOfExistenceCall::RevokeClaim {
                    content: "deed".to_string(),
                }),
            },
        ],
    };

    assert_eq!(runtime.execute_block(block_1), Ok(()));
    assert_eq!(runtime.proof_of_existence.get_claim(&"deed".to_string()), None);
    assert_eq!(runtime.system.nonce(&alice), 2);
}
