use blockchain::account::Account;
use blockchain::block::Block;
use blockchain::chain::Blockchain;
use blockchain::codec::{dec_string, payload_string};
use blockchain::crypto::digest_hex;
use blockchain::errors::ValidationError;
use blockchain::operation::Operation;
use blockchain::transaction::Transaction;

fn tip_hash(chain: &Blockchain) -> String {
    chain.history.last().unwrap().hash()
}

fn transfer_block(chain: &Blockchain, from: &Account, to: &Account, amount: u128, nonce: u64) -> Block {
    let operation = Operation::new(from.clone(), to.clone(), amount, None);
    let transaction = Transaction::new(nonce, vec![operation]);
    Block::new(Some(tip_hash(chain)), vec![transaction])
}

#[test]
fn transfer_moves_the_exact_amount_and_nothing_else() {
    let mut chain = Blockchain::new();
    let alice = Account::new();
    let bob = Account::new();
    let carol = Account::new();

    chain.get_token_from_faucet(alice.id.clone(), 70_000);
    chain.get_token_from_faucet(carol.id.clone(), 5_000);

    let block = transfer_block(&chain, &alice, &bob, 70_000, 1);
    assert!(chain.validate(block).is_ok());

    assert_eq!(0, chain.balance(alice.id.clone()));
    assert_eq!(70_000, chain.balance(bob.id.clone()));
    assert_eq!(5_000, chain.balance(carol.id.clone()));
    assert_eq!(2, chain.history.len());
    assert_eq!(1, chain.tx_database.len());
}

#[test]
fn failed_block_rolls_back_every_earlier_transaction() {
    let mut chain = Blockchain::new();
    let alice = Account::new();
    let bob = Account::new();

    chain.get_token_from_faucet(alice.id.clone(), 100_000);

    let first = Operation::new(alice.clone(), bob.clone(), 10_000, None);
    let second = Operation::new(alice.clone(), bob.clone(), 200_000, None);
    let transactions = vec![
        Transaction::new(1, vec![first]),
        Transaction::new(2, vec![second]),
    ];
    let block = Block::new(Some(tip_hash(&chain)), transactions);

    let error = chain.validate(block).err().unwrap();
    assert_eq!(ValidationError::InsufficientBalance, error);

    assert_eq!(100_000, chain.balance(alice.id.clone()));
    assert_eq!(0, chain.balance(bob.id.clone()));
    assert_eq!(1, chain.history.len());
    assert_eq!(0, chain.tx_database.len());
}

#[test]
fn repeated_transaction_content_is_rejected() {
    let mut chain = Blockchain::new();
    let alice = Account::new();
    let bob = Account::new();

    chain.get_token_from_faucet(alice.id.clone(), 100_000);

    let block = transfer_block(&chain, &alice, &bob, 10_000, 1);
    assert!(chain.validate(block).is_ok());
    assert_eq!(90_000, chain.balance(alice.id.clone()));
    assert_eq!(10_000, chain.balance(bob.id.clone()));
    assert_eq!(2, chain.history.len());

    let repeat = transfer_block(&chain, &alice, &bob, 10_000, 1);
    let error = chain.validate(repeat).err().unwrap();
    assert_eq!(ValidationError::DuplicateTransaction, error);

    assert_eq!(90_000, chain.balance(alice.id.clone()));
    assert_eq!(10_000, chain.balance(bob.id.clone()));
    assert_eq!(2, chain.history.len());
}

#[test]
fn shared_operation_content_is_rejected() {
    let mut chain = Blockchain::new();
    let alice = Account::new();
    let bob = Account::new();

    chain.get_token_from_faucet(alice.id.clone(), 100_000);

    let block = transfer_block(&chain, &alice, &bob, 10_000, 1);
    assert!(chain.validate(block).is_ok());

    // A different nonce gives a fresh transaction hash, but its only
    // operation repeats the accepted one's content.
    let repeat = transfer_block(&chain, &alice, &bob, 10_000, 2);
    let error = chain.validate(repeat).err().unwrap();
    assert_eq!(ValidationError::DuplicateOperation, error);

    assert_eq!(90_000, chain.balance(alice.id.clone()));
    assert_eq!(10_000, chain.balance(bob.id.clone()));
    assert_eq!(2, chain.history.len());
}

#[test]
fn block_without_prev_hash_is_rejected() {
    let mut chain = Blockchain::new();
    let alice = Account::new();
    let bob = Account::new();

    chain.get_token_from_faucet(alice.id.clone(), 100_000);

    let operation = Operation::new(alice.clone(), bob.clone(), 10_000, None);
    let transaction = Transaction::new(1, vec![operation]);
    let block = Block::new(None, vec![transaction]);

    let error = chain.validate(block).err().unwrap();
    assert_eq!(ValidationError::ChainLinkMismatch, error);
    assert_eq!(100_000, chain.balance(alice.id.clone()));
    assert_eq!(1, chain.history.len());
}

#[test]
fn zero_amount_is_rejected() {
    let mut chain = Blockchain::new();
    let alice = Account::new();
    let bob = Account::new();

    chain.get_token_from_faucet(alice.id.clone(), 100_000);

    let block = transfer_block(&chain, &alice, &bob, 0, 1);
    let error = chain.validate(block).err().unwrap();
    assert_eq!(ValidationError::InvalidAmount, error);
    assert_eq!(100_000, chain.balance(alice.id.clone()));
}

#[test]
fn unknown_sender_is_rejected() {
    let mut chain = Blockchain::new();
    let charlie = Account::new();
    let bob = Account::new();

    let block = transfer_block(&chain, &charlie, &bob, 1, 1);
    let error = chain.validate(block).err().unwrap();
    assert_eq!(ValidationError::UnknownSender, error);
    assert_eq!(1, chain.history.len());
}

#[test]
fn overflowing_credit_is_rejected_and_rolled_back() {
    let mut chain = Blockchain::new();
    let alice = Account::new();
    let bob = Account::new();

    chain.get_token_from_faucet(alice.id.clone(), 100_000);
    chain.coin_database.push((bob.id.clone(), u128::MAX));

    let block = transfer_block(&chain, &alice, &bob, 10_000, 1);
    let error = chain.validate(block).err().unwrap();
    assert_eq!(ValidationError::Overflow, error);

    assert_eq!(100_000, chain.balance(alice.id.clone()));
    assert_eq!(u128::MAX, chain.balance(bob.id.clone()));
    assert_eq!(1, chain.history.len());
}

#[test]
fn hashes_are_deterministic_and_content_sensitive() {
    let mut alice = Account::new();
    let bob = Account::new();
    alice.add_keypair(blockchain::keypair::KeyPair::new());

    let op = Operation::new(alice.clone(), bob.clone(), 5, None);
    let same_content = Operation::new(alice.clone(), bob.clone(), 5, Some(1));
    let other_amount = Operation::new(alice.clone(), bob.clone(), 6, None);
    let other_receiver = Operation::new(alice.clone(), alice.clone(), 5, None);

    assert_eq!(op.hash(), op.hash());
    assert_ne!(op.signature().to_string(), same_content.signature().to_string());
    assert_eq!(op.hash(), same_content.hash());
    assert_ne!(op.hash(), other_amount.hash());
    assert_ne!(op.hash(), other_receiver.hash());

    let tx = Transaction::new(1, vec![op.clone()]);
    let tx_same = Transaction::new(1, vec![op.clone()]);
    let tx_other_nonce = Transaction::new(2, vec![op.clone()]);
    assert_eq!(tx.hash(), tx.hash());
    assert_eq!(tx.hash(), tx_same.hash());
    assert_ne!(tx.hash(), tx_other_nonce.hash());

    let block = Block::new(Some("p".to_string()), vec![tx.clone()]);
    let block_same = Block::new(Some("p".to_string()), vec![tx_same]);
    let block_other_prev = Block::new(Some("q".to_string()), vec![tx]);
    assert_eq!(block.hash(), block.hash());
    assert_eq!(block.hash(), block_same.hash());
    assert_ne!(block.hash(), block_other_prev.hash());
    assert_eq!(block.hash(), block.id);
}

#[test]
fn decimal_rendering_matches_display() {
    assert_eq!("0", dec_string(0));
    assert_eq!("7", dec_string(7));
    assert_eq!("12345", dec_string(12345));
    assert_eq!(
        "340282366920938463463374607431768211455",
        dec_string(u128::MAX)
    );
    assert_eq!(format!("{}", 90_000_u128), dec_string(90_000));
}

#[test]
fn payload_matches_the_debug_tuple_rendering() {
    let payload = payload_string(&"a1".to_string(), &"b2".to_string(), 77);
    assert_eq!("(\"a1\", \"b2\", 77)", payload);
    assert_eq!(
        format!("{:?}", ("a1".to_string(), "b2".to_string(), 77_u128)),
        payload
    );
}

#[test]
fn digest_matches_the_known_keccak_vector() {
    let digest = digest_hex(&vec!["Hello world!".to_string()]);
    assert_eq!(
        "ecd0e108a98e192af1d2c25055f4e3bed784b5c877204e73219a5203251feaab",
        digest
    );
}

#[test]
fn faucet_credits_and_decrements_the_pool() {
    let mut chain = Blockchain::new();
    let alice = Account::new();

    assert_eq!(100_000_000, chain.faucet_coins);
    chain.get_token_from_faucet(alice.id.clone(), 100_000);
    chain.get_token_from_faucet(alice.id.clone(), 2_000);
    assert_eq!(102_000, chain.balance(alice.id.clone()));
    assert_eq!(99_898_000, chain.faucet_coins);
}

#[test]
fn error_messages_render_as_reported() {
    assert_eq!("Incorrect hash for prev block", ValidationError::ChainLinkMismatch.message());
    assert_eq!("Duplicate transactions", ValidationError::DuplicateTransaction.message());
    assert_eq!("Duplicate operation", ValidationError::DuplicateOperation.message());
    assert_eq!(
        "Amount operation must be more than zero",
        ValidationError::InvalidAmount.message()
    );
    assert_eq!("Sender account not exist", ValidationError::UnknownSender.message());
    assert_eq!("Insufficient balance", ValidationError::InsufficientBalance.message());
    assert_eq!("Overflow transaction amount", ValidationError::Overflow.message());
    assert_eq!(
        "Error during transaction validation, message error: Duplicate operation",
        ValidationError::DuplicateOperation.report()
    );
}
