//! The per-token state machine. Every token identifier is either absent
//! (never deposited, or withdrawn) or owned, with the last accepted
//! transaction on record; deposit, transfer and withdraw validate a
//! proposed change against the transaction model and the classifier before
//! committing it. Each operation is atomic: it commits in full or signals
//! one typed error and changes nothing.

use vstd::prelude::*;
use crate::account::AccountId;
use crate::txn::{Error, Transaction, TxnCmp};
use crate::u256::TokenId;

verus! {

/// What an accepted operation changed: the typed effect the host publishes
/// however it sees fit. Rejections never produce one.
#[derive(Clone, Copy, PartialEq, Eq, Structural, Debug)]
pub enum Event {
    /// The token was deposited; its first owner is the named account.
    Deposit(TokenId, AccountId),
    /// The token moved from the first named account to the second.
    Transfer(TokenId, AccountId, AccountId),
    /// The token was withdrawn by its owner, the named account.
    Withdraw(TokenId, AccountId),
}

/// The mapping a sequence of ownership records represents: each record maps
/// its token identifier to itself, and a later record overrides an earlier
/// one with the same token identifier.
pub open spec fn entries_map(s: Seq<Transaction>) -> Map<TokenId, Transaction>
    decreases s.len(),
{
    if s.len() == 0 {
        Map::empty()
    } else {
        entries_map(s.drop_last()).insert(s.last().token_id, s.last())
    }
}

/// No two records claim the same token identifier.
spec fn unique_ids(s: Seq<Transaction>) -> bool {
    forall|i: int, j: int| 0 <= i < j < s.len() ==> s[i].token_id != s[j].token_id
}

/// What a deposit returns: the submitter must be the transaction's sender,
/// the signature must verify, and the token must be absent; checked in that
/// order, and the first failure is the error signalled.
pub open spec fn deposit_outcome(
    m: Map<TokenId, Transaction>,
    caller: AccountId,
    txn: Transaction,
) -> Result<Event, Error> {
    if caller != txn.sender {
        Err(Error::SignerMismatch)
    } else if !txn.spec_valid() {
        Err(Error::InvalidSignature)
    } else if m.contains_key(txn.token_id) {
        Err(Error::TokenAlreadyExists)
    } else {
        Ok(Event::Deposit(txn.token_id, txn.receiver))
    }
}

/// What a transfer returns: the submitter must be the transaction's sender,
/// the signature must verify, the token must be owned, and the proposed
/// transaction must classify as the direct child of the recorded one (its
/// sender is the current owner); checked in that order.
pub open spec fn transfer_outcome(
    m: Map<TokenId, Transaction>,
    caller: AccountId,
    txn: Transaction,
) -> Result<Event, Error> {
    if caller != txn.sender {
        Err(Error::SignerMismatch)
    } else if !txn.spec_valid() {
        Err(Error::InvalidSignature)
    } else if !m.contains_key(txn.token_id) {
        Err(Error::TokenDoesNotExist)
    } else if txn.spec_compare(m[txn.token_id]) != TxnCmp::Child {
        Err(Error::NotCurrentOwner)
    } else {
        Ok(Event::Transfer(txn.token_id, txn.sender, txn.receiver))
    }
}

/// What a withdrawal returns: the token must be owned, and the caller must
/// be the recorded receiver — the current owner; checked in that order.
pub open spec fn withdraw_outcome(
    m: Map<TokenId, Transaction>,
    caller: AccountId,
    token_id: TokenId,
) -> Result<Event, Error> {
    if !m.contains_key(token_id) {
        Err(Error::TokenDoesNotExist)
    } else if caller != m[token_id].receiver {
        Err(Error::NotCurrentOwner)
    } else {
        Ok(Event::Withdraw(token_id, m[token_id].receiver))
    }
}

/// The per-token state: a finite mapping from token identifier to the
/// transaction whose receiver currently owns that token. Its view is that
/// mapping; a token outside the view's domain is absent.
pub struct TokenDb {
    entries: Vec<Transaction>,
}

impl View for TokenDb {
    type V = Map<TokenId, Transaction>;

    closed spec fn view(&self) -> Map<TokenId, Transaction> {
        entries_map(self.entries@)
    }
}

impl TokenDb {
    /// One record per token identifier; established by the constructors and
    /// preserved by every operation.
    pub closed spec fn wf(self) -> bool {
        unique_ids(self.entries@)
    }

    /// An empty state: every token is absent.
    pub fn new() -> (r: TokenDb)
        ensures
            r.wf(),
            r@ == Map::<TokenId, Transaction>::empty(),
    {
        TokenDb { entries: Vec::new() }
    }

    /// Seeds the state with initial ownership records, none of them
    /// re-validated: the host vouches for its genesis. A later record
    /// overrides an earlier one with the same token identifier, as
    /// `entries_map` spells out.
    pub fn from_genesis(seed: Vec<Transaction>) -> (r: TokenDb)
        ensures
            r.wf(),
            r@ == entries_map(seed@),
    {
        let mut db = TokenDb::new();
        let mut k: usize = 0;
        while k < seed.len()
            invariant
                k <= seed@.len(),
                db.wf(),
                db@ == entries_map(seed@.subrange(0, k as int)),
            decreases seed@.len() - k,
        {
            proof {
                assert(seed@.subrange(0, k as int + 1).drop_last() =~= seed@.subrange(0, k as int));
                assert(seed@.subrange(0, k as int + 1).last() == seed@[k as int]);
            }
            db.upsert(seed[k]);
            k += 1;
        }
        proof {
            assert(seed@.subrange(0, seed@.len() as int) =~= seed@);
        }
        db
    }

    /// The current ownership record for a token: the transaction whose
    /// receiver owns it, or nothing if the token is absent.
    pub fn current_owner_txn(&self, token_id: &TokenId) -> (r: Option<Transaction>)
        requires
            self.wf(),
        ensures
            r == if self@.contains_key(*token_id) {
                Some(self@[*token_id])
            } else {
                None::<Transaction>
            },
    {
        match self.find(token_id) {
            Some(i) => {
                proof {
                    self.lemma_found(i as int, *token_id);
                }
                Some(self.entries[i])
            },
            None => {
                proof {
                    self.lemma_not_found(*token_id);
                }
                None
            },
        }
    }

    /// Records the first ownership of an absent token. The submitter must
    /// be the depositing sender and the transaction must carry a valid
    /// signature; any rejection leaves the state untouched.
    pub fn deposit(&mut self, caller: AccountId, txn: Transaction) -> (r: Result<Event, Error>)
        requires
            old(self).wf(),
        ensures
            final(self).wf(),
            r == deposit_outcome(old(self)@, caller, txn),
            r is Ok ==> final(self)@ == old(self)@.insert(txn.token_id, txn),
            r is Err ==> *final(self) == *old(self),
    {
        if caller != txn.sender {
            return Err(Error::SignerMismatch);
        }
        if !txn.valid() {
            return Err(Error::InvalidSignature);
        }
        match self.find(&txn.token_id) {
            Some(i) => {
                proof {
                    self.lemma_found(i as int, txn.token_id);
                }
                Err(Error::TokenAlreadyExists)
            },
            None => {
                proof {
                    self.lemma_not_found(txn.token_id);
                    lemma_entries_map_push(self.entries@, txn);
                }
                self.entries.push(txn);
                Ok(Event::Deposit(txn.token_id, txn.receiver))
            },
        }
    }

    /// Replaces the current ownership record of an owned token with its
    /// direct child: the transaction, signed by the current owner, that
    /// hands the token on. The superseded record is discarded from current
    /// state; any rejection leaves the state untouched.
    pub fn transfer(&mut self, caller: AccountId, txn: Transaction) -> (r: Result<Event, Error>)
        requires
            old(self).wf(),
        ensures
            final(self).wf(),
            r == transfer_outcome(old(self)@, caller, txn),
            r is Ok ==> final(self)@ == old(self)@.insert(txn.token_id, txn),
            r is Err ==> *final(self) == *old(self),
    {
        if caller != txn.sender {
            return Err(Error::SignerMismatch);
        }
        if !txn.valid() {
            return Err(Error::InvalidSignature);
        }
        match self.find(&txn.token_id) {
            None => {
                proof {
                    self.lemma_not_found(txn.token_id);
                }
                Err(Error::TokenDoesNotExist)
            },
            Some(i) => {
                proof {
                    self.lemma_found(i as int, txn.token_id);
                }
                let prev = self.entries[i];
                let verdict = txn.compare(&prev);
                if verdict != TxnCmp::Child {
                    return Err(Error::NotCurrentOwner);
                }
                proof {
                    lemma_entries_map_update(self.entries@, i as int, txn);
                }
                self.entries.set(i, txn);
                Ok(Event::Transfer(txn.token_id, txn.sender, txn.receiver))
            },
        }
    }

    /// Removes an owned token from the state entirely, at the request of
    /// its current owner — the recorded receiver. The token becomes absent
    /// and may be deposited afresh; any rejection leaves the state
    /// untouched.
    pub fn withdraw(&mut self, caller: AccountId, token_id: TokenId) -> (r: Result<Event, Error>)
        requires
            old(self).wf(),
        ensures
            final(self).wf(),
            r == withdraw_outcome(old(self)@, caller, token_id),
            r is Ok ==> final(self)@ == old(self)@.remove(token_id),
            r is Err ==> *final(self) == *old(self),
    {
        match self.find(&token_id) {
            None => {
                proof {
                    self.lemma_not_found(token_id);
                }
                Err(Error::TokenDoesNotExist)
            },
            Some(i) => {
                proof {
                    self.lemma_found(i as int, token_id);
                }
                let cur = self.entries[i];
                if caller != cur.receiver {
                    return Err(Error::NotCurrentOwner);
                }
                proof {
                    lemma_entries_map_remove(self.entries@, i as int);
                }
                self.entries.remove(i);
                Ok(Event::Withdraw(token_id, cur.receiver))
            },
        }
    }

    /// Inserts or replaces the record for `txn`'s token, with no
    /// validation: the raw state write genesis seeding is made of.
    fn upsert(&mut self, txn: Transaction)
        requires
            old(self).wf(),
        ensures
            final(self).wf(),
            final(self)@ == old(self)@.insert(txn.token_id, txn),
    {
        match self.find(&txn.token_id) {
            Some(i) => {
                proof {
                    lemma_entries_map_update(self.entries@, i as int, txn);
                }
                self.entries.set(i, txn);
            },
            None => {
                proof {
                    lemma_entries_map_push(self.entries@, txn);
                }
                self.entries.push(txn);
            },
        }
    }

    /// The position of the record for `token_id`, if there is one.
    fn find(&self, token_id: &TokenId) -> (r: Option<usize>)
        ensures
            match r {
                Some(i) => i < self.entries@.len() && self.entries@[i as int].token_id
                    == *token_id,
                None => forall|j: int|
                    0 <= j < self.entries@.len() ==> self.entries@[j].token_id != *token_id,
            },
    {
        let mut i: usize = 0;
        while i < self.entries.len()
            invariant
                i <= self.entries@.len(),
                forall|j: int| 0 <= j < i ==> self.entries@[j].token_id != *token_id,
            decreases self.entries@.len() - i,
        {
            if self.entries[i].token_id == *token_id {
                return Some(i);
            }
            i += 1;
        }
        None
    }

    /// A record found under the well-formedness invariant is the one the
    /// view holds for its token.
    proof fn lemma_found(&self, i: int, token_id: TokenId)
        requires
            self.wf(),
            0 <= i < self.entries@.len(),
            self.entries@[i].token_id == token_id,
        ensures
            self@.contains_key(token_id),
            self@[token_id] == self.entries@[i],
    {
        lemma_entries_map_get(self.entries@, i);
    }

    /// A token no record claims is absent from the view.
    proof fn lemma_not_found(&self, token_id: TokenId)
        requires
            forall|j: int|
                0 <= j < self.entries@.len() ==> self.entries@[j].token_id != token_id,
        ensures
            !self@.contains_key(token_id),
    {
        lemma_entries_map_absent(self.entries@, token_id);
    }
}

/// A token identifier no record claims is outside the represented mapping.
proof fn lemma_entries_map_absent(s: Seq<Transaction>, token_id: TokenId)
    requires
        forall|j: int| 0 <= j < s.len() ==> s[j].token_id != token_id,
    ensures
        !entries_map(s).contains_key(token_id),
    decreases s.len(),
{
    if s.len() > 0 {
        lemma_entries_map_absent(s.drop_last(), token_id);
    }
}

/// A record that no later record overrides is what the represented mapping
/// holds for its token identifier.
proof fn lemma_entries_map_get(s: Seq<Transaction>, i: int)
    requires
        0 <= i < s.len(),
        forall|j: int| i < j < s.len() ==> s[j].token_id != s[i].token_id,
    ensures
        entries_map(s).contains_key(s[i].token_id),
        entries_map(s)[s[i].token_id] == s[i],
    decreases s.len(),
{
    if i < s.len() - 1 {
        lemma_entries_map_get(s.drop_last(), i);
    }
}

/// Appending a record inserts it into the represented mapping.
proof fn lemma_entries_map_push(s: Seq<Transaction>, txn: Transaction)
    ensures
        entries_map(s.push(txn)) == entries_map(s).insert(txn.token_id, txn),
        unique_ids(s) && (forall|j: int| 0 <= j < s.len() ==> s[j].token_id != txn.token_id)
            ==> unique_ids(s.push(txn)),
{
    assert(s.push(txn).drop_last() =~= s);
    assert(s.push(txn).last() == txn);
}

/// Replacing a record with one for the same token identifier inserts the
/// replacement into the represented mapping.
proof fn lemma_entries_map_update(s: Seq<Transaction>, i: int, txn: Transaction)
    requires
        unique_ids(s),
        0 <= i < s.len(),
        s[i].token_id == txn.token_id,
    ensures
        entries_map(s.update(i, txn)) == entries_map(s).insert(txn.token_id, txn),
        unique_ids(s.update(i, txn)),
    decreases s.len(),
{
    assert(unique_ids(s.update(i, txn)));
    if i == s.len() - 1 {
        assert(s.update(i, txn).drop_last() =~= s.drop_last());
        assert(s.update(i, txn).last() == txn);
        assert(entries_map(s.update(i, txn)) =~= entries_map(s).insert(txn.token_id, txn));
    } else {
        assert(s.update(i, txn).drop_last() =~= s.drop_last().update(i, txn));
        assert(s.update(i, txn).last() == s.last());
        lemma_entries_map_update(s.drop_last(), i, txn);
        assert(s.last().token_id != txn.token_id);
        assert(entries_map(s.update(i, txn)) =~= entries_map(s).insert(txn.token_id, txn));
    }
}

/// Removing a record removes its token identifier from the represented
/// mapping.
proof fn lemma_entries_map_remove(s: Seq<Transaction>, i: int)
    requires
        unique_ids(s),
        0 <= i < s.len(),
    ensures
        entries_map(s.remove(i)) == entries_map(s).remove(s[i].token_id),
        unique_ids(s.remove(i)),
    decreases s.len(),
{
    assert(unique_ids(s.remove(i)));
    if i == s.len() - 1 {
        assert(s.remove(i) =~= s.drop_last());
        lemma_entries_map_absent(s.drop_last(), s[i].token_id);
        assert(entries_map(s.remove(i)) =~= entries_map(s).remove(s[i].token_id));
    } else {
        assert(s.remove(i).drop_last() =~= s.drop_last().remove(i));
        assert(s.remove(i).last() == s.last());
        lemma_entries_map_remove(s.drop_last(), i);
        assert(s.last().token_id != s[i].token_id);
        assert(entries_map(s.remove(i)) =~= entries_map(s).remove(s[i].token_id));
    }
}

/// A withdrawal attempted by any account other than the token's current
/// owner — the recorded receiver — is rejected as `NotCurrentOwner`.
pub proof fn lemma_non_owner_withdraw(
    m: Map<TokenId, Transaction>,
    caller: AccountId,
    token_id: TokenId,
)
    requires
        m.contains_key(token_id),
        caller != m[token_id].receiver,
    ensures
        withdraw_outcome(m, caller, token_id) == Err::<Event, Error>(Error::NotCurrentOwner),
{
}

/// A token withdrawn to absence can be deposited again: against the state
/// left by a withdrawal, a fresh validly-signed, sender-submitted deposit
/// of that token is accepted.
pub proof fn lemma_redeposit_after_withdraw(
    m: Map<TokenId, Transaction>,
    caller: AccountId,
    txn: Transaction,
)
    requires
        caller == txn.sender,
        txn.spec_valid(),
    ensures
        deposit_outcome(m.remove(txn.token_id), caller, txn) == Ok::<Event, Error>(Event::Deposit(
            txn.token_id,
            txn.receiver,
        )),
{
}

/// A transfer whose embedded sender is not the token's current owner — the
/// recorded receiver — is always rejected; when the submitter matches that
/// sender and the signature verifies, the rejection is `NotCurrentOwner`.
pub proof fn lemma_non_owner_transfer(
    m: Map<TokenId, Transaction>,
    caller: AccountId,
    txn: Transaction,
)
    requires
        m.contains_key(txn.token_id),
        txn.sender != m[txn.token_id].receiver,
    ensures
        transfer_outcome(m, caller, txn) is Err,
        caller == txn.sender && txn.spec_valid() ==> transfer_outcome(m, caller, txn)
            == Err::<Event, Error>(Error::NotCurrentOwner),
{
    assert(txn.spec_compare(m[txn.token_id]) != TxnCmp::Child);
}

} // verus!
