use blockchain::account::Account;

#[test]
fn create_account() {
    let alice = Account::new();
    let keypair = alice.wallet(0).unwrap();

    let account_id = keypair.hash();

    assert_eq!(0, alice.balance());
    assert_eq!(account_id, alice.id);
}

#[test]
fn operation() {
    let mut alice = Account::new();
    let bob = Account::new();
    let amount = 1000;

    alice.update_balance(10000);

    let operation = alice.create_operation(bob.clone(), amount, None);
    let signature = alice.sign(&format!("{:?}", (alice.clone().id, bob.id, amount)), None);

    assert_eq!(10000, alice.balance());
    assert_eq!(amount, operation.amount());
    assert_eq!(signature.to_string(), operation.signature().to_string());
    assert!(operation.verify(None));
}

#[test]
fn operation_incorrect() {
    let mut alice = Account::new();
    let bob = Account::new();
    let amount = 100000;

    alice.update_balance(10000);

    let operation = alice.create_operation(bob.clone(), amount, None);
    let signature = alice.sign(&format!("fake-data"), None);

    assert_ne!(signature.to_string(), operation.signature().to_string());
    assert!(!operation.verify(None));
}

#[test]
fn added_keypair_signs_under_its_own_key() {
    let mut alice = Account::new();
    alice.add_keypair(blockchain::keypair::KeyPair::new());

    let message = "spend".to_string();
    let first = alice.sign(&message, None);
    let second = alice.sign(&message, Some(1));

    assert_ne!(first.to_string(), second.to_string());
    assert!(alice.verify(&message, &first, Some(0)));
    assert!(alice.verify(&message, &second, Some(1)));
    assert!(!alice.verify(&message, &second, Some(0)));
}
