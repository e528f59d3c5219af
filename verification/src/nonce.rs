//! The wire form of a nonce: eight bytes, most significant first.
//!
//! A signature authorizes one increment because the signed message spells the
//! counter's current nonce and no other. That rests on the encoding being
//! one-to-one, which is proved here.

use vstd::prelude::*;

verus! {

/// The number that `bytes` spell when read most significant byte first.
pub open spec fn be_value(bytes: Seq<u8>) -> nat
    decreases bytes.len(),
{
    if bytes.len() == 0 {
        0
    } else {
        be_value(bytes.drop_last()) * 256 + bytes.last() as nat
    }
}

/// The eight bytes that spell `nonce` most significant byte first.
pub open spec fn nonce_bytes(nonce: u64) -> Seq<u8> {
    seq![
        (nonce / 0x0100_0000_0000_0000) as u8,
        (nonce / 0x0001_0000_0000_0000 % 0x100) as u8,
        (nonce / 0x0000_0100_0000_0000 % 0x100) as u8,
        (nonce / 0x0000_0001_0000_0000 % 0x100) as u8,
        (nonce / 0x0000_0000_0100_0000 % 0x100) as u8,
        (nonce / 0x0000_0000_0001_0000 % 0x100) as u8,
        (nonce / 0x0000_0000_0000_0100 % 0x100) as u8,
        (nonce % 0x100) as u8,
    ]
}

/// Encodes `nonce` as the message its signer has to sign.
pub fn nonce_to_bytes(nonce: u64) -> (bytes: [u8; 8])
    ensures
        bytes@ == nonce_bytes(nonce),
{
    let bytes: [u8; 8] = [
        (nonce >> 56) as u8,
        ((nonce >> 48) & 0xff) as u8,
        ((nonce >> 40) & 0xff) as u8,
        ((nonce >> 32) & 0xff) as u8,
        ((nonce >> 24) & 0xff) as u8,
        ((nonce >> 16) & 0xff) as u8,
        ((nonce >> 8) & 0xff) as u8,
        (nonce & 0xff) as u8,
    ];
    assert(nonce >> 56 == nonce / 0x0100_0000_0000_0000) by (bit_vector);
    assert((nonce >> 48) & 0xff == nonce / 0x0001_0000_0000_0000 % 0x100) by (bit_vector);
    assert((nonce >> 40) & 0xff == nonce / 0x0000_0100_0000_0000 % 0x100) by (bit_vector);
    assert((nonce >> 32) & 0xff == nonce / 0x0000_0001_0000_0000 % 0x100) by (bit_vector);
    assert((nonce >> 24) & 0xff == nonce / 0x0000_0000_0100_0000 % 0x100) by (bit_vector);
    assert((nonce >> 16) & 0xff == nonce / 0x0000_0000_0001_0000 % 0x100) by (bit_vector);
    assert((nonce >> 8) & 0xff == nonce / 0x0000_0000_0000_0100 % 0x100) by (bit_vector);
    assert(nonce & 0xff == nonce % 0x100) by (bit_vector);
    assert(bytes@ =~= nonce_bytes(nonce));
    bytes
}

/// What eight bytes spell, written out as a sum.
proof fn lemma_be_value_of_eight(b: Seq<u8>)
    requires
        b.len() == 8,
    ensures
        be_value(b) == ((((((b[0] as nat * 256 + b[1] as nat) * 256 + b[2] as nat) * 256
            + b[3] as nat) * 256 + b[4] as nat) * 256 + b[5] as nat) * 256 + b[6] as nat) * 256
            + b[7] as nat,
{
    let b7 = b.drop_last();
    let b6 = b7.drop_last();
    let b5 = b6.drop_last();
    let b4 = b5.drop_last();
    let b3 = b4.drop_last();
    let b2 = b3.drop_last();
    let b1 = b2.drop_last();
    let b0 = b1.drop_last();
    assert(be_value(b0) == 0);
    assert(be_value(b1) == be_value(b0) * 256 + b[0] as nat);
    assert(be_value(b2) == be_value(b1) * 256 + b[1] as nat);
    assert(be_value(b3) == be_value(b2) * 256 + b[2] as nat);
    assert(be_value(b4) == be_value(b3) * 256 + b[3] as nat);
    assert(be_value(b5) == be_value(b4) * 256 + b[4] as nat);
    assert(be_value(b6) == be_value(b5) * 256 + b[5] as nat);
    assert(be_value(b7) == be_value(b6) * 256 + b[6] as nat);
    assert(be_value(b) == be_value(b7) * 256 + b[7] as nat);
}

/// Reading an encoded nonce back gives the nonce.
pub proof fn lemma_nonce_bytes_value(nonce: u64)
    ensures
        nonce_bytes(nonce).len() == 8,
        be_value(nonce_bytes(nonce)) == nonce,
{
    let n = nonce as nat;
    let q1 = n / 0x100;
    let q2 = n / 0x1_0000;
    let q3 = n / 0x100_0000;
    let q4 = n / 0x1_0000_0000;
    let q5 = n / 0x100_0000_0000;
    let q6 = n / 0x1_0000_0000_0000;
    let q7 = n / 0x100_0000_0000_0000;
    assert(q2 == q1 / 0x100);
    assert(q3 == q2 / 0x100);
    assert(q4 == q3 / 0x100);
    assert(q5 == q4 / 0x100);
    assert(q6 == q5 / 0x100);
    assert(q7 == q6 / 0x100);
    assert(q7 < 0x100);
    lemma_be_value_of_eight(nonce_bytes(nonce));
}

/// Eight bytes are the encoding of the nonce that they spell, and of no other.
pub proof fn lemma_eight_bytes_spell_a_nonce(bytes: Seq<u8>)
    requires
        bytes.len() == 8,
    ensures
        be_value(bytes) <= u64::MAX,
        nonce_bytes(be_value(bytes) as u64) == bytes,
{
    lemma_be_value_of_eight(bytes);
    let v1 = bytes[0] as nat;
    let v2 = v1 * 256 + bytes[1] as nat;
    let v3 = v2 * 256 + bytes[2] as nat;
    let v4 = v3 * 256 + bytes[3] as nat;
    let v5 = v4 * 256 + bytes[4] as nat;
    let v6 = v5 * 256 + bytes[5] as nat;
    let v7 = v6 * 256 + bytes[6] as nat;
    let n = v7 * 256 + bytes[7] as nat;
    assert(n == be_value(bytes));
    assert(n / 0x100 == v7 && n % 0x100 == bytes[7]);
    assert(v7 / 0x100 == v6 && v7 % 0x100 == bytes[6]);
    assert(v6 / 0x100 == v5 && v6 % 0x100 == bytes[5]);
    assert(v5 / 0x100 == v4 && v5 % 0x100 == bytes[4]);
    assert(v4 / 0x100 == v3 && v4 % 0x100 == bytes[3]);
    assert(v3 / 0x100 == v2 && v3 % 0x100 == bytes[2]);
    assert(v2 / 0x100 == v1 && v2 % 0x100 == bytes[1]);
    assert(n / 0x1_0000 == v6) by {
        assert(n / 0x1_0000 == (n / 0x100) / 0x100);
    }
    assert(n / 0x100_0000 == v5) by {
        assert(n / 0x100_0000 == (n / 0x1_0000) / 0x100);
    }
    assert(n / 0x1_0000_0000 == v4) by {
        assert(n / 0x1_0000_0000 == (n / 0x100_0000) / 0x100);
    }
    assert(n / 0x100_0000_0000 == v3) by {
        assert(n / 0x100_0000_0000 == (n / 0x1_0000_0000) / 0x100);
    }
    assert(n / 0x1_0000_0000_0000 == v2) by {
        assert(n / 0x1_0000_0000_0000 == (n / 0x100_0000_0000) / 0x100);
    }
    assert(n / 0x100_0000_0000_0000 == v1) by {
        assert(n / 0x100_0000_0000_0000 == (n / 0x1_0000_0000_0000) / 0x100);
    }
    assert(n <= u64::MAX);
    assert(nonce_bytes(n as u64) =~= bytes);
}

/// Two nonces with the same encoding are the same nonce.
pub proof fn lemma_nonce_bytes_injective(a: u64, b: u64)
    requires
        nonce_bytes(a) == nonce_bytes(b),
    ensures
        a == b,
{
    lemma_nonce_bytes_value(a);
    lemma_nonce_bytes_value(b);
}

} // verus!
