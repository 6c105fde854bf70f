//! A 256-bit unsigned integer, the type of token identifiers and of
//! block references. Held as four 64-bit limbs, least significant first,
//! with verified conversions to the little-endian image used by the
//! canonical transaction encoding and the big-endian image used as the
//! leaf index of the external commitment structure.

use vstd::prelude::*;
use crate::bytes::{u64_le_bytes, u64_be_bytes, push_u64_le, push_u64_be, u64_from_le_bytes,
    u64_from_be_bytes, lemma_u64_le_bytes_injective, lemma_concat_injective};

verus! {

/// A 256-bit unsigned integer; `w0` is the least significant limb.
#[derive(Clone, Copy, PartialEq, Eq, Structural, Debug)]
pub struct U256 {
    pub w0: u64,
    pub w1: u64,
    pub w2: u64,
    pub w3: u64,
}

/// A token's 256-bit identifier.
pub type TokenId = U256;

/// A 256-bit reference to the commitment round as of which a sender's
/// ownership claim was last confirmed.
pub type BlkNum = U256;

impl U256 {
    /// The numeric value of the four limbs.
    pub open spec fn as_nat(self) -> nat {
        (self.w0 + self.w1 * 0x1_0000_0000_0000_0000
            + self.w2 * 0x1_0000_0000_0000_0000_0000_0000_0000_0000
            + self.w3 * 0x1_0000_0000_0000_0000_0000_0000_0000_0000_0000_0000_0000_0000) as nat
    }

    /// The 32-byte little-endian image, as in the canonical encoding.
    pub open spec fn le_bytes(self) -> Seq<u8> {
        u64_le_bytes(self.w0) + u64_le_bytes(self.w1) + u64_le_bytes(self.w2)
            + u64_le_bytes(self.w3)
    }

    /// The 32-byte big-endian image, the leaf index of the commitment structure.
    pub open spec fn be_bytes(self) -> Seq<u8> {
        u64_be_bytes(self.w3) + u64_be_bytes(self.w2) + u64_be_bytes(self.w1)
            + u64_be_bytes(self.w0)
    }

    pub fn zero() -> (r: U256)
        ensures
            r.as_nat() == 0,
            r == (U256 { w0: 0, w1: 0, w2: 0, w3: 0 }),
    {
        U256 { w0: 0, w1: 0, w2: 0, w3: 0 }
    }

    pub fn from_u64(x: u64) -> (r: U256)
        ensures
            r.as_nat() == x,
            r == (U256 { w0: x, w1: 0, w2: 0, w3: 0 }),
    {
        U256 { w0: x, w1: 0, w2: 0, w3: 0 }
    }

    /// Strict numeric order.
    pub fn lt(&self, other: &U256) -> (r: bool)
        ensures
            r == (self.as_nat() < other.as_nat()),
    {
        if self.w3 != other.w3 {
            self.w3 < other.w3
        } else if self.w2 != other.w2 {
            self.w2 < other.w2
        } else if self.w1 != other.w1 {
            self.w1 < other.w1
        } else {
            self.w0 < other.w0
        }
    }

    /// Appends the little-endian image to `out`.
    pub fn push_le_bytes(&self, out: &mut Vec<u8>)
        ensures
            final(out)@ == old(out)@ + self.le_bytes(),
    {
        push_u64_le(out, self.w0);
        push_u64_le(out, self.w1);
        push_u64_le(out, self.w2);
        push_u64_le(out, self.w3);
        proof {
            assert(out@ =~= old(out)@ + self.le_bytes());
        }
    }

    /// The big-endian image, serving as the 256-bit leaf index.
    pub fn to_be_bytes(&self) -> (r: Vec<u8>)
        ensures
            r@ == self.be_bytes(),
            r@.len() == 32,
    {
        let mut out: Vec<u8> = Vec::new();
        push_u64_be(&mut out, self.w3);
        push_u64_be(&mut out, self.w2);
        push_u64_be(&mut out, self.w1);
        push_u64_be(&mut out, self.w0);
        proof {
            assert(out@ =~= self.be_bytes());
        }
        out
    }

    /// Rebuilds the value whose big-endian image is the given 32 bytes:
    /// every 256-bit leaf index is the index of exactly one token.
    pub fn from_be_bytes(b: &[u8; 32]) -> (r: U256)
        ensures
            r.be_bytes() == b@,
    {
        let w3 = u64_from_be_bytes(b[0], b[1], b[2], b[3], b[4], b[5], b[6], b[7]);
        let w2 = u64_from_be_bytes(b[8], b[9], b[10], b[11], b[12], b[13], b[14], b[15]);
        let w1 = u64_from_be_bytes(b[16], b[17], b[18], b[19], b[20], b[21], b[22], b[23]);
        let w0 = u64_from_be_bytes(b[24], b[25], b[26], b[27], b[28], b[29], b[30], b[31]);
        let r = U256 { w0, w1, w2, w3 };
        proof {
            assert(r.be_bytes() =~= b@);
        }
        r
    }

    /// Rebuilds the value whose little-endian image is the given 32 bytes.
    pub fn from_le_bytes(b: &[u8; 32]) -> (r: U256)
        ensures
            r.le_bytes() == b@,
    {
        let w0 = u64_from_le_bytes(b[0], b[1], b[2], b[3], b[4], b[5], b[6], b[7]);
        let w1 = u64_from_le_bytes(b[8], b[9], b[10], b[11], b[12], b[13], b[14], b[15]);
        let w2 = u64_from_le_bytes(b[16], b[17], b[18], b[19], b[20], b[21], b[22], b[23]);
        let w3 = u64_from_le_bytes(b[24], b[25], b[26], b[27], b[28], b[29], b[30], b[31]);
        let r = U256 { w0, w1, w2, w3 };
        proof {
            assert(r.le_bytes() =~= b@);
        }
        r
    }
}

/// Two values with the same little-endian image are the same value.
pub proof fn lemma_u256_le_bytes_injective(x: U256, y: U256)
    requires
        x.le_bytes() == y.le_bytes(),
    ensures
        x == y,
{
    lemma_concat_injective(
        u64_le_bytes(x.w0) + u64_le_bytes(x.w1) + u64_le_bytes(x.w2),
        u64_le_bytes(x.w3),
        u64_le_bytes(y.w0) + u64_le_bytes(y.w1) + u64_le_bytes(y.w2),
        u64_le_bytes(y.w3),
    );
    lemma_concat_injective(
        u64_le_bytes(x.w0) + u64_le_bytes(x.w1),
        u64_le_bytes(x.w2),
        u64_le_bytes(y.w0) + u64_le_bytes(y.w1),
        u64_le_bytes(y.w2),
    );
    lemma_concat_injective(u64_le_bytes(x.w0), u64_le_bytes(x.w1), u64_le_bytes(y.w0),
        u64_le_bytes(y.w1));
    lemma_u64_le_bytes_injective(x.w0, y.w0);
    lemma_u64_le_bytes_injective(x.w1, y.w1);
    lemma_u64_le_bytes_injective(x.w2, y.w2);
    lemma_u64_le_bytes_injective(x.w3, y.w3);
}

/// The big-endian leaf index is injective over the token identifier space,
/// as the commitment structure's non-membership proofs require.
pub proof fn lemma_u256_be_bytes_injective(x: U256, y: U256)
    requires
        x.be_bytes() == y.be_bytes(),
    ensures
        x == y,
{
    lemma_concat_injective(
        u64_be_bytes(x.w3) + u64_be_bytes(x.w2) + u64_be_bytes(x.w1),
        u64_be_bytes(x.w0),
        u64_be_bytes(y.w3) + u64_be_bytes(y.w2) + u64_be_bytes(y.w1),
        u64_be_bytes(y.w0),
    );
    lemma_concat_injective(
        u64_be_bytes(x.w3) + u64_be_bytes(x.w2),
        u64_be_bytes(x.w1),
        u64_be_bytes(y.w3) + u64_be_bytes(y.w2),
        u64_be_bytes(y.w1),
    );
    lemma_concat_injective(u64_be_bytes(x.w3), u64_be_bytes(x.w2), u64_be_bytes(y.w3),
        u64_be_bytes(y.w2));
    lemma_u64_be_bytes_injective(x.w0, y.w0);
    lemma_u64_be_bytes_injective(x.w1, y.w1);
    lemma_u64_be_bytes_injective(x.w2, y.w2);
    lemma_u64_be_bytes_injective(x.w3, y.w3);
}

/// A 64-bit word is determined by its big-endian byte image.
proof fn lemma_u64_be_bytes_injective(x: u64, y: u64)
    requires
        u64_be_bytes(x) == u64_be_bytes(y),
    ensures
        x == y,
{
    assert forall|i: int| 0 <= i < 8 implies u64_le_bytes(x)[i] == u64_le_bytes(y)[i] by {
        assert(u64_be_bytes(x)[7 - i] == u64_be_bytes(y)[7 - i]);
    }
    assert(u64_le_bytes(x) =~= u64_le_bytes(y));
    lemma_u64_le_bytes_injective(x, y);
}

} // verus!
