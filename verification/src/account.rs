//! Account identities and signatures as fixed-width byte strings, held as
//! 64-bit limbs so that equality in contracts is plain structural equality.
//! The external identity layer supplies both; this core only compares them
//! and serializes them for hashing and signature verification.

use vstd::prelude::*;
use crate::bytes::{u64_le_bytes, push_u64_le, u64_from_le_bytes, lemma_u64_le_bytes_injective,
    lemma_concat_injective};

verus! {

/// An opaque public-key identity: a 32-byte string, held as four 64-bit
/// limbs of its byte serialization, least significant first.
#[derive(Clone, Copy, PartialEq, Eq, Structural, Debug)]
pub struct AccountId {
    pub w0: u64,
    pub w1: u64,
    pub w2: u64,
    pub w3: u64,
}

/// A 64-byte signature by an account over a 256-bit message hash, held as
/// eight 64-bit limbs of its byte serialization.
#[derive(Clone, Copy, PartialEq, Eq, Structural, Debug)]
pub struct Signature {
    pub s0: u64,
    pub s1: u64,
    pub s2: u64,
    pub s3: u64,
    pub s4: u64,
    pub s5: u64,
    pub s6: u64,
    pub s7: u64,
}

impl AccountId {
    /// The 32-byte serialization of the identity.
    pub open spec fn spec_bytes(self) -> Seq<u8> {
        u64_le_bytes(self.w0) + u64_le_bytes(self.w1) + u64_le_bytes(self.w2)
            + u64_le_bytes(self.w3)
    }

    /// The all-zero identity, the `receiver` of the empty leaf.
    pub fn zero() -> (r: AccountId)
        ensures
            r == (AccountId { w0: 0, w1: 0, w2: 0, w3: 0 }),
    {
        AccountId { w0: 0, w1: 0, w2: 0, w3: 0 }
    }

    /// Rebuilds the identity whose serialization is the given 32 bytes.
    pub fn from_bytes(b: &[u8; 32]) -> (r: AccountId)
        ensures
            r.spec_bytes() == b@,
    {
        let w0 = u64_from_le_bytes(b[0], b[1], b[2], b[3], b[4], b[5], b[6], b[7]);
        let w1 = u64_from_le_bytes(b[8], b[9], b[10], b[11], b[12], b[13], b[14], b[15]);
        let w2 = u64_from_le_bytes(b[16], b[17], b[18], b[19], b[20], b[21], b[22], b[23]);
        let w3 = u64_from_le_bytes(b[24], b[25], b[26], b[27], b[28], b[29], b[30], b[31]);
        let r = AccountId { w0, w1, w2, w3 };
        proof {
            assert(r.spec_bytes() =~= b@);
        }
        r
    }

    /// The 32-byte serialization.
    pub fn to_bytes(&self) -> (r: Vec<u8>)
        ensures
            r@ == self.spec_bytes(),
            r@.len() == 32,
    {
        let mut out: Vec<u8> = Vec::new();
        push_u64_le(&mut out, self.w0);
        push_u64_le(&mut out, self.w1);
        push_u64_le(&mut out, self.w2);
        push_u64_le(&mut out, self.w3);
        proof {
            assert(out@ =~= self.spec_bytes());
        }
        out
    }
}

impl Signature {
    /// The 64-byte serialization of the signature.
    pub open spec fn spec_bytes(self) -> Seq<u8> {
        u64_le_bytes(self.s0) + u64_le_bytes(self.s1) + u64_le_bytes(self.s2)
            + u64_le_bytes(self.s3) + u64_le_bytes(self.s4) + u64_le_bytes(self.s5)
            + u64_le_bytes(self.s6) + u64_le_bytes(self.s7)
    }

    /// Rebuilds the signature whose serialization is the given 64 bytes.
    pub fn from_bytes(b: &[u8; 64]) -> (r: Signature)
        ensures
            r.spec_bytes() == b@,
    {
        let s0 = u64_from_le_bytes(b[0], b[1], b[2], b[3], b[4], b[5], b[6], b[7]);
        let s1 = u64_from_le_bytes(b[8], b[9], b[10], b[11], b[12], b[13], b[14], b[15]);
        let s2 = u64_from_le_bytes(b[16], b[17], b[18], b[19], b[20], b[21], b[22], b[23]);
        let s3 = u64_from_le_bytes(b[24], b[25], b[26], b[27], b[28], b[29], b[30], b[31]);
        let s4 = u64_from_le_bytes(b[32], b[33], b[34], b[35], b[36], b[37], b[38], b[39]);
        let s5 = u64_from_le_bytes(b[40], b[41], b[42], b[43], b[44], b[45], b[46], b[47]);
        let s6 = u64_from_le_bytes(b[48], b[49], b[50], b[51], b[52], b[53], b[54], b[55]);
        let s7 = u64_from_le_bytes(b[56], b[57], b[58], b[59], b[60], b[61], b[62], b[63]);
        let r = Signature { s0, s1, s2, s3, s4, s5, s6, s7 };
        proof {
            assert(r.spec_bytes() =~= b@);
        }
        r
    }

    /// The 64-byte serialization.
    pub fn to_bytes(&self) -> (r: Vec<u8>)
        ensures
            r@ == self.spec_bytes(),
            r@.len() == 64,
    {
        let mut out: Vec<u8> = Vec::new();
        push_u64_le(&mut out, self.s0);
        push_u64_le(&mut out, self.s1);
        push_u64_le(&mut out, self.s2);
        push_u64_le(&mut out, self.s3);
        push_u64_le(&mut out, self.s4);
        push_u64_le(&mut out, self.s5);
        push_u64_le(&mut out, self.s6);
        push_u64_le(&mut out, self.s7);
        proof {
            assert(out@ =~= self.spec_bytes());
        }
        out
    }
}

/// An account identity is determined by its 32-byte serialization.
pub proof fn lemma_account_bytes_injective(x: AccountId, y: AccountId)
    requires
        x.spec_bytes() == y.spec_bytes(),
    ensures
        x == y,
{
    lemma_concat_injective(
        u64_le_bytes(x.w0) + u64_le_bytes(x.w1) + u64_le_bytes(x.w2),
        u64_le_bytes(x.w3),
        u64_le_bytes(y.w0) + u64_le_bytes(y.w1) + u64_le_bytes(y.w2),
        u64_le_bytes(y.w3),
    );
    lemma_concat_injective(
        u64_le_bytes(x.w0) + u64_le_bytes(x.w1),
        u64_le_bytes(x.w2),
        u64_le_bytes(y.w0) + u64_le_bytes(y.w1),
        u64_le_bytes(y.w2),
    );
    lemma_concat_injective(u64_le_bytes(x.w0), u64_le_bytes(x.w1), u64_le_bytes(y.w0),
        u64_le_bytes(y.w1));
    lemma_u64_le_bytes_injective(x.w0, y.w0);
    lemma_u64_le_bytes_injective(x.w1, y.w1);
    lemma_u64_le_bytes_injective(x.w2, y.w2);
    lemma_u64_le_bytes_injective(x.w3, y.w3);
}

} // verus!
