use chain_runtime::balances;
use chain_runtime::proof_of_existence;
use chain_runtime::support::DispatchError;
use chain_runtime::system;

#[test]
fn init_balances() {
    let mut balances = balances::Pallet::new();

    assert_eq!(balances.balance(&"alice".to_string()), 0);

    balances.set_balance(&"alice".to_string(), 100);
    assert_eq!(balances.balance(&"alice".to_string()), 100);
    assert_eq!(balances.balance(&"bob".to_string()), 0);
}

#[test]
fn transfer_balance() {
    let mut balances = balances::Pallet::new();

    assert_eq!(
        balances
            .transfer(&"alice".to_string(), &"bob".to_string(), 100)
            .map_err(|e| e.message()),
        Err("Not enough funds.")
    );

    balances.set_balance(&"alice".to_string(), 100);
    assert_eq!(balances.transfer(&"alice".to_string(), &"bob".to_string(), 50), Ok(()));
    assert_eq!(balances.balance(&"alice".to_string()), 50);
    assert_eq!(balances.balance(&"bob".to_string()), 50);
}

#[test]
fn basic_proof_of_existence() {
    let alice = "alice".to_string();
    let bob = "bob".to_string();
    let alice_claim = "alice_claim".to_string();
    let bob_claim = "bob_claim".to_string();

    let mut poe = proof_of_existence::Pallet::new();

    assert_eq!(poe.get_claim(&alice_claim), None);
    assert_eq!(poe.create_claim(alice.clone(), alice_claim.clone()), Ok(()));
    assert_eq!(poe.get_claim(&alice_claim), Some(&alice));

    assert_eq!(poe.create_claim(bob.clone(), bob_claim.clone()), Ok(()));
    assert_eq!(poe.revoke_claim(bob.clone(), bob_claim.clone()), Ok(()));
    assert_eq!(poe.create_claim(bob, bob_claim), Ok(()));
}

#[test]
fn init_system() {
    let mut system = system::Pallet::new();
    system.inc_block_number();
    system.inc_nonce(&"alice".to_string());

    assert_eq!(system.block_number(), 1);
    assert_eq!(system.nonce(&"alice".to_string()), 1);
}

#[test]
fn nonce_counts_every_increment() {
    let mut system = system::Pallet::new();
    let alice = "alice".to_string();
    assert_eq!(system.nonce(&alice), 0);
    system.inc_nonce(&alice);
    system.inc_nonce(&alice);
    system.inc_nonce(&alice);
    assert_eq!(system.nonce(&alice), 3);
    assert_eq!(system.nonce(&"bob".to_string()), 0);
    assert_eq!(system.block_number(), 0);
}

#[test]
fn transfer_overflow_changes_nothing() {
    let mut balances = balances::Pallet::new();
    let alice = "alice".to_string();
    let bob = "bob".to_string();
    balances.set_balance(&alice, 10);
    balances.set_balance(&bob, u128::MAX);
    assert_eq!(balances.transfer(&alice, &bob, 1), Err(DispatchError::BalanceOverflow));
    assert_eq!(balances.balance(&alice), 10);
    assert_eq!(balances.balance(&bob), u128::MAX);
}

#[test]
fn transfer_insufficient_changes_nothing() {
    let mut balances = balances::Pallet::new();
    let alice = "alice".to_string();
    let bob = "bob".to_string();
    balances.set_balance(&alice, 7);
    balances.set_balance(&bob, 3);
    assert_eq!(balances.transfer(&alice, &bob, 8), Err(DispatchError::InsufficientFunds));
    assert_eq!(balances.balance(&alice), 7);
    assert_eq!(balances.balance(&bob), 3);
}

#[test]
fn transfer_whole_balance_empties_sender() {
    let mut balances = balances::Pallet::new();
    let alice = "alice".to_string();
    let bob = "bob".to_string();
    balances.set_balance(&alice, 40);
    balances.set_balance(&bob, 2);
    assert_eq!(balances.transfer(&alice, &bob, 40), Ok(()));
    assert_eq!(balances.balance(&alice), 0);
    assert_eq!(balances.balance(&bob), 42);
}

#[test]
fn transfer_conserves_total() {
    let mut balances = balances::Pallet::new();
    let alice = "alice".to_string();
    let bob = "bob".to_string();
    balances.set_balance(&alice, 70);
    balances.set_balance(&bob, 5);
    assert_eq!(balances.transfer(&alice, &bob, 25), Ok(()));
    assert_eq!(balances.balance(&alice) + balances.balance(&bob), 75);
    assert_eq!(balances.balance(&alice), 45);
}

#[test]
fn transfer_to_self_changes_nothing() {
    let mut balances = balances::Pallet::new();
    let alice = "alice".to_string();
    balances.set_balance(&alice, 10);
    assert_eq!(balances.transfer(&alice, &alice, 4), Ok(()));
    assert_eq!(balances.balance(&alice), 10);
    assert_eq!(balances.transfer(&alice, &alice, 11), Err(DispatchError::InsufficientFunds));
    assert_eq!(balances.balance(&alice), 10);
}

#[test]
fn set_balance_overwrites() {
    let mut balances = balances::Pallet::new();
    let alice = "alice".to_string();
    balances.set_balance(&alice, 10);
    balances.set_balance(&alice, 3);
    assert_eq!(balances.balance(&alice), 3);
}

#[test]
fn second_claim_is_refused() {
    let mut poe = proof_of_existence::Pallet::new();
    let alice = "alice".to_string();
    let bob = "bob".to_string();
    let doc = "doc".to_string();
    assert_eq!(poe.create_claim(alice.clone(), doc.clone()), Ok(()));
    assert_eq!(poe.create_claim(bob.clone(), doc.clone()), Err(DispatchError::AlreadyClaimed));
    assert_eq!(poe.create_claim(alice.clone(), doc.clone()), Err(DispatchError::AlreadyClaimed));
    assert_eq!(poe.get_claim(&doc), Some(&alice));
    assert_eq!(poe.revoke_claim(alice, doc.clone()), Ok(()));
    assert_eq!(poe.create_claim(bob.clone(), doc.clone()), Ok(()));
    assert_eq!(poe.get_claim(&doc), Some(&bob));
}

#[test]
fn revoke_by_other_account_is_refused() {
    let mut poe = proof_of_existence::Pallet::new();
    let alice = "alice".to_string();
    let bob = "bob".to_string();
    let doc = "doc".to_string();
    assert_eq!(poe.revoke_claim(bob.clone(), doc.clone()), Err(DispatchError::ClaimNotFound));
    assert_eq!(poe.create_claim(alice.clone(), doc.clone()), Ok(()));
    assert_eq!(poe.revoke_claim(bob, doc.clone()), Err(DispatchError::NotClaimOwner));
    assert_eq!(poe.get_claim(&doc), Some(&alice));
}

#[test]
fn error_messages() {
    assert_eq!(DispatchError::InsufficientFunds.message(), "Not enough funds.");
    assert_eq!(DispatchError::BalanceOverflow.message(), "Overflow.");
    assert_eq!(DispatchError::AlreadyClaimed.message(), "This content is already claimed");
    assert_eq!(DispatchError::ClaimNotFound.message(), "Claim does not exist");
    assert_eq!(DispatchError::NotClaimOwner.message(), "You are not the owner of this claim");
    assert_eq!(
        DispatchError::BlockNumberMismatch.message(),
        "block number does not match what is expected"
    );
}
