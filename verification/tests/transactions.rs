use plasma_cash::account::{AccountId, Signature};
use plasma_cash::chain::Alternative;
use plasma_cash::txn::{Error, Transaction, TxnCmp, UnsignedTransaction};
use plasma_cash::u256::U256;
use schnorrkel::{ExpansionMode, Keypair, MiniSecretKey};

fn create_acct(id: u8) -> Keypair {
    MiniSecretKey::from_bytes(&[id; 32])
        .expect("static values are valid")
        .expand_to_keypair(ExpansionMode::Ed25519)
}

fn account_of(pair: &Keypair) -> AccountId {
    AccountId::from_bytes(&pair.public.to_bytes())
}

fn create_txn(from: &Keypair, to: AccountId, token_id: U256, blk_num: U256) -> Transaction {
    let unsigned = Transaction::new(to, token_id, blk_num);
    let message = unsigned.hash();
    let signature = from.sign_simple(b"substrate", &message);
    unsigned
        .add_signature(account_of(from), Signature::from_bytes(&signature.to_bytes()))
        .unwrap()
}

#[test]
fn test_encode_layout() {
    let mut receiver_bytes = [0u8; 32];
    for (i, b) in receiver_bytes.iter_mut().enumerate() {
        *b = i as u8 + 1;
    }
    let receiver = AccountId::from_bytes(&receiver_bytes);
    let unsigned = UnsignedTransaction::new(receiver, U256::from_u64(123), U256::from_u64(5));
    let encoded = unsigned.encode();
    assert_eq!(encoded.len(), 96);
    assert_eq!(&encoded[0..32], &receiver_bytes[..]);
    let mut token_le = [0u8; 32];
    token_le[0] = 123;
    assert_eq!(&encoded[32..64], &token_le[..]);
    let mut blk_le = [0u8; 32];
    blk_le[0] = 5;
    assert_eq!(&encoded[64..96], &blk_le[..]);
}

#[test]
fn test_hash_is_a_digest_not_the_input() {
    let unsigned = UnsignedTransaction::new(
        AccountId::from_bytes(&[7u8; 32]),
        U256::from_u64(1),
        U256::from_u64(0),
    );
    let encoded = unsigned.encode();
    let digest = unsigned.hash();
    assert_eq!(digest.len(), 32);
    assert_ne!(digest, encoded);
    assert_ne!(&digest[..], &encoded[0..32]);
    // Different signable fields give a different digest, and the all-zero
    // fields hash to the canonical empty-leaf value.
    let zero = UnsignedTransaction::new(AccountId::from_bytes(&[0u8; 32]), U256::zero(), U256::zero());
    assert_ne!(zero.hash(), digest);
    assert_eq!(zero.hash(), Transaction::empty_leaf_hash());
}

#[test]
fn test_leaf_hash_matches_presigning_hash() {
    let account = create_acct(1);
    let unsigned = Transaction::new(account_of(&account), U256::from_u64(123), U256::from_u64(4));
    let message = unsigned.hash();
    let signature = account.sign_simple(b"substrate", &message);
    let txn = unsigned
        .add_signature(account_of(&account), Signature::from_bytes(&signature.to_bytes()))
        .unwrap();
    assert_eq!(txn.leaf_hash(), message);
}

#[test]
fn test_leaf_index_is_big_endian_token_id() {
    let account = create_acct(1);
    let txn = create_txn(&account, account_of(&account), U256::from_u64(123), U256::from_u64(0));
    let index = txn.leaf_index();
    let mut expected = [0u8; 32];
    expected[31] = 123;
    assert_eq!(&index[..], &expected[..]);
}

#[test]
fn test_signature_round_trip() {
    let account = create_acct(1);
    let receiver = create_acct(2);
    let unsigned = UnsignedTransaction::new(
        account_of(&receiver),
        U256::from_u64(42),
        U256::from_u64(3),
    );
    let message = unsigned.hash();
    let signature = account.sign_simple(b"substrate", &message);
    let txn = unsigned
        .add_signature(account_of(&account), Signature::from_bytes(&signature.to_bytes()))
        .unwrap();
    assert!(txn.valid());
}

#[test]
fn test_add_signature_rejects_wrong_sender() {
    let account = create_acct(1);
    let other = create_acct(2);
    let unsigned = UnsignedTransaction::new(
        account_of(&account),
        U256::from_u64(42),
        U256::from_u64(3),
    );
    let message = unsigned.hash();
    let signature = account.sign_simple(b"substrate", &message);
    assert_eq!(
        unsigned.add_signature(account_of(&other), Signature::from_bytes(&signature.to_bytes())),
        Err(Error::InvalidSignature)
    );
}

#[test]
fn test_corruption_invalidates() {
    let account = create_acct(1);
    let receiver = create_acct(2);
    let unsigned = UnsignedTransaction::new(
        account_of(&receiver),
        U256::from_u64(42),
        U256::from_u64(3),
    );
    let message = unsigned.hash();
    let signature = account.sign_simple(b"substrate", &message);
    let txn = unsigned
        .add_signature(account_of(&account), Signature::from_bytes(&signature.to_bytes()))
        .unwrap();
    assert!(txn.valid());

    let mut sig_bytes = signature.to_bytes();
    sig_bytes[0] ^= 1;
    let corrupt_signature = Transaction {
        signature: Signature::from_bytes(&sig_bytes),
        ..txn
    };
    assert!(!corrupt_signature.valid());

    let mut sender_bytes = account.public.to_bytes();
    sender_bytes[0] ^= 1;
    let corrupt_sender = Transaction {
        sender: AccountId::from_bytes(&sender_bytes),
        ..txn
    };
    assert!(!corrupt_sender.valid());

    let mut receiver_bytes = receiver.public.to_bytes();
    receiver_bytes[0] ^= 1;
    let corrupt_receiver = Transaction {
        receiver: AccountId::from_bytes(&receiver_bytes),
        ..txn
    };
    assert!(!corrupt_receiver.valid());

    let corrupt_token = Transaction {
        token_id: U256::from_u64(43),
        ..txn
    };
    assert!(!corrupt_token.valid());

    let corrupt_blk = Transaction {
        prev_blk_num: U256::from_u64(4),
        ..txn
    };
    assert!(!corrupt_blk.valid());
}

#[test]
fn test_classifier_chain_pair() {
    let a = create_acct(1);
    let b = create_acct(2);
    let c = create_acct(3);
    let token = U256::from_u64(9);
    let first = create_txn(&a, account_of(&b), token, U256::from_u64(1));
    let second = create_txn(&b, account_of(&c), token, U256::from_u64(2));
    assert_eq!(second.compare(&first), TxnCmp::Child);
    assert_eq!(first.compare(&second), TxnCmp::Parent);
}

#[test]
fn test_classifier_same_and_self_addressed_quirk() {
    let a = create_acct(1);
    let b = create_acct(2);
    let token = U256::from_u64(9);
    let txn = create_txn(&a, account_of(&b), token, U256::from_u64(1));
    assert_eq!(txn.compare(&txn), TxnCmp::Same);
    // A self-addressed record reads as its own parent: the parenthood check
    // comes first, by design.
    let self_addressed = create_txn(&a, account_of(&a), token, U256::from_u64(1));
    assert_eq!(self_addressed.compare(&self_addressed), TxnCmp::Parent);
}

#[test]
fn test_classifier_two_cycle_masked_as_parent() {
    let a = create_acct(1);
    let b = create_acct(2);
    let token = U256::from_u64(9);
    let forward = create_txn(&a, account_of(&b), token, U256::from_u64(1));
    let back = create_txn(&b, account_of(&a), token, U256::from_u64(2));
    assert_eq!(forward.compare(&back), TxnCmp::Parent);
    assert_eq!(back.compare(&forward), TxnCmp::Parent);
}

#[test]
fn test_classifier_siblings() {
    let a = create_acct(1);
    let b = create_acct(2);
    let c = create_acct(3);
    let token = U256::from_u64(9);
    let earlier = create_txn(&a, account_of(&b), token, U256::from_u64(1));
    let later = create_txn(&a, account_of(&c), token, U256::from_u64(2));
    assert_eq!(earlier.compare(&later), TxnCmp::EarlierSibling);
    assert_eq!(later.compare(&earlier), TxnCmp::LaterSibling);
}

#[test]
fn test_classifier_double_spend() {
    let a = create_acct(1);
    let b = create_acct(2);
    let c = create_acct(3);
    let token = U256::from_u64(9);
    let to_b = create_txn(&a, account_of(&b), token, U256::from_u64(1));
    let to_c = create_txn(&a, account_of(&c), token, U256::from_u64(1));
    assert_eq!(to_b.compare(&to_c), TxnCmp::DoubleSpend);
    assert_eq!(to_c.compare(&to_b), TxnCmp::DoubleSpend);
}

#[test]
fn test_classifier_unrelated() {
    let a = create_acct(1);
    let b = create_acct(2);
    let c = create_acct(3);
    let d = create_acct(4);
    let token = U256::from_u64(9);
    let one = create_txn(&a, account_of(&b), token, U256::from_u64(1));
    let two = create_txn(&c, account_of(&d), token, U256::from_u64(1));
    assert_eq!(one.compare(&two), TxnCmp::Unrelated);
    // Different tokens are unrelated whatever the parties.
    let other_token = create_txn(&a, account_of(&b), U256::from_u64(10), U256::from_u64(1));
    assert_eq!(one.compare(&other_token), TxnCmp::Unrelated);
}

#[test]
fn test_u256_order_and_round_trips() {
    assert!(U256::from_u64(1).lt(&U256::from_u64(2)));
    assert!(!U256::from_u64(2).lt(&U256::from_u64(2)));
    let mut high = [0u8; 32];
    high[8] = 1;
    let two_pow_64 = U256::from_le_bytes(&high);
    assert!(U256::from_u64(u64::MAX).lt(&two_pow_64));
    assert!(!two_pow_64.lt(&U256::from_u64(u64::MAX)));

    let mut all = [0u8; 32];
    for (i, b) in all.iter_mut().enumerate() {
        *b = 255 - i as u8;
    }
    let value = U256::from_le_bytes(&all);
    let mut be = all;
    be.reverse();
    assert_eq!(&value.to_be_bytes()[..], &be[..]);
    assert_eq!(U256::from_be_bytes(&be), value);

    let account = AccountId::from_bytes(&all);
    assert_eq!(&account.to_bytes()[..], &all[..]);

    let mut sig_bytes = [0u8; 64];
    for (i, b) in sig_bytes.iter_mut().enumerate() {
        *b = i as u8;
    }
    let signature = Signature::from_bytes(&sig_bytes);
    assert_eq!(&signature.to_bytes()[..], &sig_bytes[..]);
}

#[test]
fn test_alternative_from() {
    assert_eq!(Alternative::from("dev"), Some(Alternative::Development));
    assert_eq!(Alternative::from(""), Some(Alternative::LocalTestnet));
    assert_eq!(Alternative::from("local"), Some(Alternative::LocalTestnet));
    assert_eq!(Alternative::from("mainnet"), None);
}
