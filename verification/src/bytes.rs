//! Byte-level building blocks for the canonical transaction encoding:
//! little-endian and big-endian images of 64-bit words, and the exec
//! functions that produce and consume them.

use vstd::prelude::*;

verus! {

/// The eight bytes of a 64-bit word, least significant first.
pub open spec fn u64_le_bytes(x: u64) -> Seq<u8> {
    seq![
        x as u8,
        (x >> 8) as u8,
        (x >> 16) as u8,
        (x >> 24) as u8,
        (x >> 32) as u8,
        (x >> 40) as u8,
        (x >> 48) as u8,
        (x >> 56) as u8,
    ]
}

/// The eight bytes of a 64-bit word, most significant first.
pub open spec fn u64_be_bytes(x: u64) -> Seq<u8> {
    seq![
        (x >> 56) as u8,
        (x >> 48) as u8,
        (x >> 40) as u8,
        (x >> 32) as u8,
        (x >> 24) as u8,
        (x >> 16) as u8,
        (x >> 8) as u8,
        x as u8,
    ]
}

/// Appends the little-endian bytes of `x` to `out`.
pub fn push_u64_le(out: &mut Vec<u8>, x: u64)
    ensures
        final(out)@ == old(out)@ + u64_le_bytes(x),
{
    out.push(#[verifier::truncate] (x as u8));
    out.push(#[verifier::truncate] ((x >> 8) as u8));
    out.push(#[verifier::truncate] ((x >> 16) as u8));
    out.push(#[verifier::truncate] ((x >> 24) as u8));
    out.push(#[verifier::truncate] ((x >> 32) as u8));
    out.push(#[verifier::truncate] ((x >> 40) as u8));
    out.push(#[verifier::truncate] ((x >> 48) as u8));
    out.push(#[verifier::truncate] ((x >> 56) as u8));
    proof {
        assert(out@ =~= old(out)@ + u64_le_bytes(x));
    }
}

/// Appends the big-endian bytes of `x` to `out`.
pub fn push_u64_be(out: &mut Vec<u8>, x: u64)
    ensures
        final(out)@ == old(out)@ + u64_be_bytes(x),
{
    out.push(#[verifier::truncate] ((x >> 56) as u8));
    out.push(#[verifier::truncate] ((x >> 48) as u8));
    out.push(#[verifier::truncate] ((x >> 40) as u8));
    out.push(#[verifier::truncate] ((x >> 32) as u8));
    out.push(#[verifier::truncate] ((x >> 24) as u8));
    out.push(#[verifier::truncate] ((x >> 16) as u8));
    out.push(#[verifier::truncate] ((x >> 8) as u8));
    out.push(#[verifier::truncate] (x as u8));
    proof {
        assert(out@ =~= old(out)@ + u64_be_bytes(x));
    }
}

/// Rebuilds the 64-bit word whose little-endian bytes are the given eight.
pub fn u64_from_le_bytes(b0: u8, b1: u8, b2: u8, b3: u8, b4: u8, b5: u8, b6: u8, b7: u8) -> (r: u64)
    ensures
        u64_le_bytes(r) == seq![b0, b1, b2, b3, b4, b5, b6, b7],
{
    let r: u64 = (b0 as u64) | ((b1 as u64) << 8) | ((b2 as u64) << 16) | ((b3 as u64) << 24)
        | ((b4 as u64) << 32) | ((b5 as u64) << 40) | ((b6 as u64) << 48) | ((b7 as u64) << 56);
    proof {
        assert(r as u8 == b0 && (r >> 8) as u8 == b1 && (r >> 16) as u8 == b2
            && (r >> 24) as u8 == b3 && (r >> 32) as u8 == b4 && (r >> 40) as u8 == b5
            && (r >> 48) as u8 == b6 && (r >> 56) as u8 == b7) by (bit_vector)
            requires
                r == (b0 as u64) | ((b1 as u64) << 8) | ((b2 as u64) << 16) | ((b3 as u64) << 24)
                    | ((b4 as u64) << 32) | ((b5 as u64) << 40) | ((b6 as u64) << 48)
                    | ((b7 as u64) << 56),
        ;
        assert(u64_le_bytes(r) =~= seq![b0, b1, b2, b3, b4, b5, b6, b7]);
    }
    r
}

/// Rebuilds the 64-bit word whose big-endian bytes are the given eight.
pub fn u64_from_be_bytes(b0: u8, b1: u8, b2: u8, b3: u8, b4: u8, b5: u8, b6: u8, b7: u8) -> (r: u64)
    ensures
        u64_be_bytes(r) == seq![b0, b1, b2, b3, b4, b5, b6, b7],
{
    let r: u64 = ((b0 as u64) << 56) | ((b1 as u64) << 48) | ((b2 as u64) << 40)
        | ((b3 as u64) << 32) | ((b4 as u64) << 24) | ((b5 as u64) << 16) | ((b6 as u64) << 8)
        | (b7 as u64);
    proof {
        assert((r >> 56) as u8 == b0 && (r >> 48) as u8 == b1 && (r >> 40) as u8 == b2
            && (r >> 32) as u8 == b3 && (r >> 24) as u8 == b4 && (r >> 16) as u8 == b5
            && (r >> 8) as u8 == b6 && r as u8 == b7) by (bit_vector)
            requires
                r == ((b0 as u64) << 56) | ((b1 as u64) << 48) | ((b2 as u64) << 40)
                    | ((b3 as u64) << 32) | ((b4 as u64) << 24) | ((b5 as u64) << 16)
                    | ((b6 as u64) << 8) | (b7 as u64),
        ;
        assert(u64_be_bytes(r) =~= seq![b0, b1, b2, b3, b4, b5, b6, b7]);
    }
    r
}

/// A 64-bit word is determined by its little-endian byte image.
pub proof fn lemma_u64_le_bytes_injective(x: u64, y: u64)
    requires
        u64_le_bytes(x) == u64_le_bytes(y),
    ensures
        x == y,
{
    assert(u64_le_bytes(x)[0] == u64_le_bytes(y)[0]);
    assert(u64_le_bytes(x)[1] == u64_le_bytes(y)[1]);
    assert(u64_le_bytes(x)[2] == u64_le_bytes(y)[2]);
    assert(u64_le_bytes(x)[3] == u64_le_bytes(y)[3]);
    assert(u64_le_bytes(x)[4] == u64_le_bytes(y)[4]);
    assert(u64_le_bytes(x)[5] == u64_le_bytes(y)[5]);
    assert(u64_le_bytes(x)[6] == u64_le_bytes(y)[6]);
    assert(u64_le_bytes(x)[7] == u64_le_bytes(y)[7]);
    assert(x == y) by (bit_vector)
        requires
            x as u8 == y as u8 && (x >> 8) as u8 == (y >> 8) as u8
                && (x >> 16) as u8 == (y >> 16) as u8 && (x >> 24) as u8 == (y >> 24) as u8
                && (x >> 32) as u8 == (y >> 32) as u8 && (x >> 40) as u8 == (y >> 40) as u8
                && (x >> 48) as u8 == (y >> 48) as u8 && (x >> 56) as u8 == (y >> 56) as u8,
    ;
}

/// Splitting a concatenation at the length of its left part recovers both parts.
pub proof fn lemma_concat_injective(a1: Seq<u8>, a2: Seq<u8>, b1: Seq<u8>, b2: Seq<u8>)
    requires
        a1 + a2 == b1 + b2,
        a1.len() == b1.len(),
    ensures
        a1 == b1,
        a2 == b2,
{
    assert forall|i: int| 0 <= i < a1.len() implies a1[i] == b1[i] by {
        assert((a1 + a2)[i] == a1[i]);
        assert((b1 + b2)[i] == b1[i]);
    }
    assert(a1 =~= b1);
    assert((a1 + a2).len() == a1.len() + a2.len());
    assert((b1 + b2).len() == b1.len() + b2.len());
    assert(a2.len() == b2.len());
    assert forall|i: int| 0 <= i < a2.len() implies a2[i] == b2[i] by {
        assert((a1 + a2)[a1.len() + i] == a2[i]);
        assert((b1 + b2)[b1.len() + i] == b2[i]);
    }
    assert(a2 =~= b2);
}

} // verus!
