//! The transaction model: an immutable, signed record of one token's
//! ownership change, its canonical encoding and hashing, its self-contained
//! signature check, the leaf-encoding contract consumed by the external
//! commitment structure, and the pairwise relationship classifier.

use vstd::prelude::*;
use crate::account::{AccountId, Signature, lemma_account_bytes_injective};
use crate::u256::{U256, TokenId, BlkNum, lemma_u256_le_bytes_injective};
use crate::crypto::{blake2b_256, sr25519_verifies, blake2b_256_digest, sr25519_verify};
use crate::bytes::lemma_concat_injective;

verus! {

/// The signable fields of a transaction: who receives the token, which
/// token, and as of which commitment round the sender's ownership claim
/// was last confirmed. Exists only as the intermediate step before signing.
#[derive(Clone, Copy, PartialEq, Eq, Structural, Debug)]
pub struct UnsignedTransaction {
    pub receiver: AccountId,
    pub token_id: TokenId,
    pub prev_blk_num: BlkNum,
}

/// A signed record of a single token's ownership change. The signature is
/// by `sender` over the canonical hash of the unsigned fields; the intended
/// creation path is `UnsignedTransaction::add_signature`, which checks it,
/// and a record assembled any other way simply fails `valid`.
#[derive(Clone, Copy, PartialEq, Eq, Structural, Debug)]
pub struct Transaction {
    pub receiver: AccountId,
    pub token_id: TokenId,
    pub prev_blk_num: BlkNum,
    pub sender: AccountId,
    pub signature: Signature,
}

/// The structural relationship between two transactions that reference the
/// same token.
#[derive(Clone, Copy, PartialEq, Eq, Structural, Debug)]
pub enum TxnCmp {
    /// The two transactions are the same: same sender, receiver and block
    /// reference.
    Same,
    /// The other transaction is this one's direct parent: this receiver is
    /// the other's sender.
    Parent,
    /// This transaction is the other's direct parent: this sender is the
    /// other's receiver.
    Child,
    /// Same sender, and this one references the earlier commitment round.
    EarlierSibling,
    /// Same sender, and this one references the later commitment round.
    LaterSibling,
    /// Same sender, same commitment round, different receivers: conflicting
    /// claims over the same prior state.
    DoubleSpend,
    /// None of the above, or different tokens.
    Unrelated,
}

impl UnsignedTransaction {
    /// The canonical byte encoding of the signable fields: the receiver's
    /// 32-byte identity, then the token identifier and the block reference,
    /// each as 32 little-endian bytes.
    pub open spec fn spec_encode(self) -> Seq<u8> {
        self.receiver.spec_bytes() + self.token_id.le_bytes() + self.prev_blk_num.le_bytes()
    }

    /// The canonical 32-byte message that must be signed.
    pub open spec fn spec_hash(self) -> Seq<u8> {
        blake2b_256(self.spec_encode())
    }

    pub fn new(receiver: AccountId, token_id: TokenId, prev_blk_num: BlkNum) -> (r:
        UnsignedTransaction)
        ensures
            r == (UnsignedTransaction { receiver, token_id, prev_blk_num }),
    {
        UnsignedTransaction { receiver, token_id, prev_blk_num }
    }

    /// The canonical byte encoding of the signable fields.
    pub fn encode(&self) -> (r: Vec<u8>)
        ensures
            r@ == self.spec_encode(),
            r@.len() == 96,
    {
        let mut out = self.receiver.to_bytes();
        self.token_id.push_le_bytes(&mut out);
        self.prev_blk_num.push_le_bytes(&mut out);
        proof {
            assert(out@ =~= self.spec_encode());
        }
        out
    }

    /// The canonical hash of the signable fields: the message a sender signs.
    pub fn hash(&self) -> (r: Vec<u8>)
        ensures
            r@ == self.spec_hash(),
            r@.len() == 32,
    {
        let encoded = self.encode();
        blake2b_256_digest(&encoded)
    }

    /// Binds `sender` and `signature` to the unsigned fields, provided
    /// `signature` is a valid signature by `sender` over the canonical
    /// hash; otherwise reports the mismatch and constructs nothing. This is
    /// the intended creation path: every record it returns is
    /// self-consistent, as the contract states.
    pub fn add_signature(&self, sender: AccountId, signature: Signature) -> (r: Result<
        Transaction,
        Error,
    >)
        ensures
            r is Ok <==> sr25519_verifies(sender.spec_bytes(), self.spec_hash(),
                signature.spec_bytes()),
            r matches Ok(t) ==> t == (Transaction {
                receiver: self.receiver,
                token_id: self.token_id,
                prev_blk_num: self.prev_blk_num,
                sender,
                signature,
            }),
            r matches Ok(t) ==> t.spec_valid(),
            r is Err ==> r == Err::<Transaction, Error>(Error::InvalidSignature),
    {
        let message = self.hash();
        let public = sender.to_bytes();
        let sig_bytes = signature.to_bytes();
        if sr25519_verify(&public, &message, &sig_bytes) {
            Ok(Transaction {
                receiver: self.receiver,
                token_id: self.token_id,
                prev_blk_num: self.prev_blk_num,
                sender,
                signature,
            })
        } else {
            Err(Error::InvalidSignature)
        }
    }
}

/// Why an operation or a construction was rejected. Every failure is a
/// typed value returned to the caller; no rejection changes state.
#[derive(Clone, Copy, PartialEq, Eq, Structural, Debug)]
pub enum Error {
    /// The transaction's signature does not verify against its sender and
    /// its canonical hash.
    InvalidSignature,
    /// The submitting caller is not the transaction's embedded sender.
    SignerMismatch,
    /// A deposit named a token that already has an owner.
    TokenAlreadyExists,
    /// A transfer or withdrawal named a token with no recorded deposit.
    TokenDoesNotExist,
    /// The proposed change was not authorized by the token's current owner.
    NotCurrentOwner,
}

impl Transaction {
    /// The signable fields this transaction re-derives its message from.
    pub open spec fn spec_unsigned(self) -> UnsignedTransaction {
        UnsignedTransaction {
            receiver: self.receiver,
            token_id: self.token_id,
            prev_blk_num: self.prev_blk_num,
        }
    }

    /// Whether the bound signature is a valid signature by `sender` over
    /// the canonical hash of the unsigned fields.
    pub open spec fn spec_valid(self) -> bool {
        sr25519_verifies(
            self.sender.spec_bytes(),
            self.spec_unsigned().spec_hash(),
            self.signature.spec_bytes(),
        )
    }

    /// Starts a new transaction: the unsigned value to be hashed and signed.
    pub fn new(receiver: AccountId, token_id: TokenId, prev_blk_num: BlkNum) -> (r:
        UnsignedTransaction)
        ensures
            r == (UnsignedTransaction { receiver, token_id, prev_blk_num }),
    {
        UnsignedTransaction { receiver, token_id, prev_blk_num }
    }

    /// The 256-bit leaf index of this transaction's token: its identifier
    /// serialized big-endian, a stable injective mapping.
    pub fn leaf_index(&self) -> (r: Vec<u8>)
        ensures
            r@ == self.token_id.be_bytes(),
            r@.len() == 32,
    {
        self.token_id.to_be_bytes()
    }

    /// The canonical "nothing here" leaf value: the hash of the all-zero
    /// unsigned transaction.
    pub fn empty_leaf_hash() -> (r: Vec<u8>)
        ensures
            r@ == (UnsignedTransaction {
                receiver: AccountId { w0: 0, w1: 0, w2: 0, w3: 0 },
                token_id: U256 { w0: 0, w1: 0, w2: 0, w3: 0 },
                prev_blk_num: U256 { w0: 0, w1: 0, w2: 0, w3: 0 },
            }).spec_hash(),
            r@.len() == 32,
    {
        let unsigned = UnsignedTransaction::new(AccountId::zero(), U256::zero(), U256::zero());
        unsigned.hash()
    }

    /// The leaf value committed for this token: the hash of the unsigned
    /// fields alone, the same value that was signed.
    pub fn leaf_hash(&self) -> (r: Vec<u8>)
        ensures
            r@ == self.spec_unsigned().spec_hash(),
            r@.len() == 32,
    {
        let unsigned = UnsignedTransaction::new(self.receiver, self.token_id, self.prev_blk_num);
        unsigned.hash()
    }

    /// Re-checks, in isolation, that the bound signature is a valid
    /// signature by `sender` over this transaction's own leaf hash. A
    /// defensive re-check for transactions received over an untrusted
    /// channel; construction already enforced it.
    pub fn valid(&self) -> (r: bool)
        ensures
            r == self.spec_valid(),
    {
        let message = self.leaf_hash();
        let public = self.sender.to_bytes();
        let sig_bytes = self.signature.to_bytes();
        sr25519_verify(&public, &message, &sig_bytes)
    }

    /// The classifier's verdict on `self` and `other`, checked in this
    /// order: different tokens are unrelated; otherwise parenthood is
    /// checked before childhood (so a mutual parent-child pair reads as
    /// `Parent`), then fork candidates from a shared sender are ordered by
    /// block reference, conflicting destinations at the same reference are
    /// a double spend, and a full match is the same transaction.
    pub open spec fn spec_compare(self, other: Transaction) -> TxnCmp {
        if self.token_id == other.token_id {
            if self.receiver == other.sender {
                TxnCmp::Parent
            } else if self.sender == other.receiver {
                TxnCmp::Child
            } else if self.sender == other.sender {
                if self.prev_blk_num.as_nat() < other.prev_blk_num.as_nat() {
                    TxnCmp::EarlierSibling
                } else if self.prev_blk_num.as_nat() > other.prev_blk_num.as_nat() {
                    TxnCmp::LaterSibling
                } else if self.receiver != other.receiver {
                    TxnCmp::DoubleSpend
                } else {
                    TxnCmp::Same
                }
            } else {
                TxnCmp::Unrelated
            }
        } else {
            TxnCmp::Unrelated
        }
    }

    /// Classifies the structural relationship between two transactions.
    /// Pure and total: every pair gets exactly one verdict, never an error.
    /// Both are assumed individually valid; signatures are not re-checked.
    pub fn compare(&self, other: &Transaction) -> (r: TxnCmp)
        ensures
            r == self.spec_compare(*other),
    {
        if self.token_id == other.token_id {
            if self.receiver == other.sender {
                TxnCmp::Parent
            } else if self.sender == other.receiver {
                TxnCmp::Child
            } else if self.sender == other.sender {
                if self.prev_blk_num.lt(&other.prev_blk_num) {
                    TxnCmp::EarlierSibling
                } else if other.prev_blk_num.lt(&self.prev_blk_num) {
                    TxnCmp::LaterSibling
                } else if self.receiver != other.receiver {
                    TxnCmp::DoubleSpend
                } else {
                    TxnCmp::Same
                }
            } else {
                TxnCmp::Unrelated
            }
        } else {
            TxnCmp::Unrelated
        }
    }
}

/// The canonical encoding is injective: transactions that differ in any
/// signable field encode to different byte strings, so they hash to
/// different messages unless the hash itself collides.
pub proof fn lemma_encode_injective(a: UnsignedTransaction, b: UnsignedTransaction)
    requires
        a.spec_encode() == b.spec_encode(),
    ensures
        a == b,
{
    lemma_concat_injective(
        a.receiver.spec_bytes() + a.token_id.le_bytes(),
        a.prev_blk_num.le_bytes(),
        b.receiver.spec_bytes() + b.token_id.le_bytes(),
        b.prev_blk_num.le_bytes(),
    );
    lemma_concat_injective(
        a.receiver.spec_bytes(),
        a.token_id.le_bytes(),
        b.receiver.spec_bytes(),
        b.token_id.le_bytes(),
    );
    lemma_account_bytes_injective(a.receiver, b.receiver);
    lemma_u256_le_bytes_injective(a.token_id, b.token_id);
    lemma_u256_le_bytes_injective(a.prev_blk_num, b.prev_blk_num);
}

/// Classifying a transaction against itself yields `Same` — except for a
/// self-addressed transaction (sender equals receiver), which the fixed
/// check order reads as its own `Parent`.
pub proof fn lemma_compare_self(a: Transaction)
    requires
        a.receiver != a.sender,
    ensures
        a.spec_compare(a) == TxnCmp::Same,
{
}

/// `Parent` and `Child` are mirror verdicts: one direction sees its parent
/// exactly when the other sees its child — except for a two-cycle (each
/// transaction's receiver is the other's sender), which the fixed check
/// order reads as `Parent` from both sides.
pub proof fn lemma_compare_parent_child(a: Transaction, b: Transaction)
    requires
        !(a.receiver == b.sender && b.receiver == a.sender),
    ensures
        a.spec_compare(b) == TxnCmp::Parent <==> b.spec_compare(a) == TxnCmp::Child,
{
}

/// Two validly-signed claims from the same sender over the same prior
/// state with different destinations are a double spend, seen from both
/// sides — provided neither transaction hands the token straight back to
/// that shared sender, which the fixed check order reads as parenthood.
pub proof fn lemma_double_spend(a: Transaction, b: Transaction)
    requires
        a.token_id == b.token_id,
        a.sender == b.sender,
        a.prev_blk_num == b.prev_blk_num,
        a.receiver != b.receiver,
        a.receiver != b.sender,
        b.receiver != a.sender,
    ensures
        a.spec_compare(b) == TxnCmp::DoubleSpend,
        b.spec_compare(a) == TxnCmp::DoubleSpend,
{
}

} // verus!
