use blockchain::account::Account;
use blockchain::block::Block;
use blockchain::chain::Blockchain;
use blockchain::operation::Operation;
use blockchain::transaction::Transaction;

#[test]
fn create_blockchain() {
    let chain = Blockchain::new();
    assert_eq!(1, chain.history.len());
}

#[test]
fn validate_block_with_transaction() {
    let mut chain = Blockchain::new();

    let alice = Account::new();
    let bob = Account::new();

    chain.get_token_from_faucet(alice.clone().id, 100_000);

    let operation = Operation::new(alice.clone(), bob.clone(), 10_000, None);
    let transaction = Transaction::new(1, vec![operation]);
    let prev_hash = chain.history.last().unwrap().hash();
    let block = Block::new(Some(prev_hash), vec![transaction]);

    assert_eq!(100_000, chain.balance(alice.clone().id));
    assert_eq!(0, chain.balance(bob.clone().id));

    assert!(chain.validate(block).is_ok());
    assert_eq!(90_000, chain.balance(alice.clone().id));
    assert_eq!(10_000, chain.balance(bob.clone().id));
    assert_eq!(2, chain.history.len());
}

#[test]
fn failed_incorrect_hash_prev_block() {
    let mut chain = Blockchain::new();

    let alice = Account::new();
    let bob = Account::new();

    chain.get_token_from_faucet(alice.clone().id, 100_000);

    let operation = Operation::new(alice.clone(), bob.clone(), 10_000, None);
    let transaction = Transaction::new(1, vec![operation]);
    let fake_hash: String = "Fake Hash".to_string();
    let block = Block::new(Some(fake_hash), vec![transaction]);

    assert_eq!(100_000, chain.balance(alice.clone().id));
    assert_eq!(0, chain.balance(bob.clone().id));

    assert_eq!(
        "Incorrect hash for prev block",
        chain.validate(block).err().unwrap().report()
    );

    assert_eq!(100_000, chain.balance(alice.clone().id));
    assert_eq!(0, chain.balance(bob.clone().id));
    assert_eq!(1, chain.history.len());
}

#[test]
fn failed_insufficient_balance() {
    let mut chain = Blockchain::new();

    let alice = Account::new();
    let bob = Account::new();

    chain.get_token_from_faucet(alice.clone().id, 100_000);

    let operation = Operation::new(alice.clone(), bob.clone(), 1_000_000, None);
    let transaction = Transaction::new(1, vec![operation]);

    let prev_hash = chain.history.last().unwrap().hash();
    let block = Block::new(Some(prev_hash), vec![transaction]);

    assert_eq!(100_000, chain.balance(alice.clone().id));
    assert_eq!(0, chain.balance(bob.clone().id));

    assert_eq!(
        "Error during transaction validation, message error: Insufficient balance",
        chain.validate(block).err().unwrap().report()
    );

    assert_eq!(100_000, chain.balance(alice.clone().id));
    assert_eq!(0, chain.balance(bob.clone().id));
    assert_eq!(1, chain.history.len());
}
