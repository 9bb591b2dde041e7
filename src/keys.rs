use crate::bytes::be_value;
use rsa::PublicKeyParts as RsaParts;
use vstd::arithmetic::power2::pow2;
use vstd::prelude::*;

verus! {

#[verifier::external_type_specification]
#[verifier::external_body]
pub struct ExRsaError(rsa::errors::Error);

/// Largest public exponent that an encryption key may have.
pub const MAX_PUBLIC_EXPONENT: u64 = 0x1_ffff_ffff;

/// Smallest public exponent that an encryption key may have.
pub const MIN_PUBLIC_EXPONENT: u64 = 2;

/// Largest modulus size of an encryption key, in bits.
pub const MAX_MODULUS_BITS: u64 = 4096;

/// An RSA public key as the big-endian bytes of its modulus and exponent.
#[derive(Clone, Debug, PartialEq, Eq)]
pub struct PublicKeyParts {
    pub modulus: Vec<u8>,
    pub exponent: Vec<u8>,
}

/// The shortest big-endian encoding of the number that `s` denotes: no
/// leading zero byte, and zero as a single zero byte.
pub open spec fn minimal_be(s: Seq<u8>) -> Seq<u8>
    decreases s.len(),
{
    if s.len() == 0 {
        seq![0u8]
    } else if s.len() == 1 || s[0] != 0 {
        s
    } else {
        minimal_be(s.drop_first())
    }
}

/// Whether a modulus and an exponent, as big-endian bytes, form an
/// acceptable public key: a modulus of at most 4096 bits and an exponent
/// between 2 and 2^33 - 1.
pub open spec fn key_accepted(modulus: Seq<u8>, exponent: Seq<u8>) -> bool {
    &&& be_value(modulus) < pow2(MAX_MODULUS_BITS as nat)
    &&& MIN_PUBLIC_EXPONENT <= be_value(exponent) <= MAX_PUBLIC_EXPONENT
}

/// The key that decoding `raw` yields, when it is accepted.
pub open spec fn decoded_key(raw: PublicKeyParts) -> (Seq<u8>, Seq<u8>) {
    (minimal_be(raw.modulus@), minimal_be(raw.exponent@))
}

/// Relies on rsa's `RsaPublicKey::new`, which checks the modulus size and
/// the exponent range, over numbers read with `BigUint::from_bytes_be`; the
/// fields of the key are read back with `BigUint::to_bytes_be`.
#[verifier::external_body]
fn rsa_public_key_parts(modulus: &Vec<u8>, exponent: &Vec<u8>) -> (r: Result<
    (Vec<u8>, Vec<u8>),
    rsa::errors::Error,
>)
    ensures
        r is Ok <==> key_accepted(modulus@, exponent@),
        r matches Ok(p) ==> p.0@ == minimal_be(modulus@) && p.1@ == minimal_be(exponent@),
{
    let n = rsa::BigUint::from_bytes_be(modulus.as_slice());
    let e = rsa::BigUint::from_bytes_be(exponent.as_slice());
    match rsa::RsaPublicKey::new(n, e) {
        Ok(k) => Ok((k.n().to_bytes_be(), k.e().to_bytes_be())),
        Err(err) => Err(err),
    }
}

/// Reconstructs a participant's public key from its two byte strings and
/// returns the key's own fields; `None` when the key is malformed.
pub fn decode_public_key(raw: &PublicKeyParts) -> (r: Option<PublicKeyParts>)
    ensures
        r is Some <==> key_accepted(raw.modulus@, raw.exponent@),
        r matches Some(k) ==> (k.modulus@, k.exponent@) == decoded_key(*raw),
{
    match rsa_public_key_parts(&raw.modulus, &raw.exponent) {
        Ok(p) => Some(PublicKeyParts { modulus: p.0, exponent: p.1 }),
        Err(_) => None,
    }
}

/// The value of a byte string does not change when its leading zeros go.
pub proof fn lemma_minimal_be_value(s: Seq<u8>)
    ensures
        be_value(minimal_be(s)) == be_value(s),
    decreases s.len(),
{
    if s.len() > 1 && s[0] == 0 {
        lemma_minimal_be_value(s.drop_first());
        lemma_be_value_drop_leading_zero(s);
    } else if s.len() == 0 {
        let z = seq![0u8];
        assert(z.drop_last() =~= Seq::<u8>::empty());
        assert(z.last() == 0u8);
        assert(be_value(z) == be_value(z.drop_last()) * 256 + z.last() as nat);
        assert(minimal_be(s) == z);
    }
}

proof fn lemma_be_value_drop_leading_zero(s: Seq<u8>)
    requires
        s.len() > 0,
        s[0] == 0,
    ensures
        be_value(s) == be_value(s.drop_first()),
    decreases s.len(),
{
    if s.len() > 1 {
        let p = s.drop_last();
        assert(p[0] == 0);
        lemma_be_value_drop_leading_zero(p);
        assert(p.drop_first() =~= s.drop_first().drop_last());
        assert(s.drop_first().last() == s.last());
    } else {
        assert(s.drop_first() =~= Seq::<u8>::empty());
        assert(s.drop_last() =~= Seq::<u8>::empty());
    }
}

/// A key's fields read back byte for byte as the strings it was built from
/// when those strings are minimal encodings (no leading zero byte).
pub proof fn lemma_public_key_round_trip(raw: PublicKeyParts)
    requires
        minimal_be(raw.modulus@) == raw.modulus@,
        minimal_be(raw.exponent@) == raw.exponent@,
    ensures
        decoded_key(raw) == (raw.modulus@, raw.exponent@),
{
}

/// Decoding a decoded key again changes neither its fields nor whether it is
/// accepted.
pub proof fn lemma_decode_idempotent(raw: PublicKeyParts, k: PublicKeyParts)
    requires
        (k.modulus@, k.exponent@) == decoded_key(raw),
    ensures
        decoded_key(k) == decoded_key(raw),
        key_accepted(k.modulus@, k.exponent@) == key_accepted(raw.modulus@, raw.exponent@),
{
    lemma_minimal_be_idempotent(raw.modulus@);
    lemma_minimal_be_idempotent(raw.exponent@);
    lemma_minimal_be_value(raw.modulus@);
    lemma_minimal_be_value(raw.exponent@);
}

proof fn lemma_minimal_be_idempotent(s: Seq<u8>)
    ensures
        minimal_be(minimal_be(s)) == minimal_be(s),
    decreases s.len(),
{
    if s.len() > 1 && s[0] == 0 {
        lemma_minimal_be_idempotent(s.drop_first());
    }
}

} // verus!
