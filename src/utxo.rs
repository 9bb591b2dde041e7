use crate::bytes::{be_bytes, be_value, lemma_be_bytes_of_value};
use vstd::arithmetic::power2::pow2;
use vstd::prelude::*;

verus! {

#[verifier::external_type_specification]
#[verifier::external_body]
pub struct ExFromDecStrErr(ethers::abi::ethereum_types::FromDecStrErr);

/// Whether every character of `s` is a decimal digit.
pub open spec fn is_decimal(s: Seq<char>) -> bool {
    forall|i: int| 0 <= i < s.len() ==> '0' <= #[trigger] s[i] <= '9'
}

/// The number that a string of decimal digits denotes; the empty string
/// denotes zero.
pub open spec fn decimal_value(s: Seq<char>) -> nat
    decreases s.len(),
{
    if s.len() == 0 {
        0
    } else {
        decimal_value(s.drop_last()) * 10 + ((s.last() as u32 - '0' as u32) as nat)
    }
}

/// Relies on uint's `U256::from_dec_str` (through ethers), which accepts a
/// string of decimal digits whose value is below 2^256, the empty string as
/// zero, and on `U256::to_big_endian` to hand the value out as 32 bytes.
#[verifier::external_body]
fn u256_from_dec_str(text: &str) -> (r: Result<
    UtxoId,
    ethers::abi::ethereum_types::FromDecStrErr,
>)
    ensures
        r is Ok <==> (is_decimal(text@) && decimal_value(text@) < pow2(256)),
        r matches Ok(id) ==> id.value() == decimal_value(text@),
{
    match ethers::types::U256::from_dec_str(text) {
        Ok(v) => {
            let mut be = [0u8; 32];
            v.to_big_endian(&mut be);
            Ok(UtxoId { be })
        },
        Err(e) => Err(e),
    }
}

/// Width of a UTXO identifier on the wire.
pub const UTXO_ID_BYTES: usize = 32;

/// A 256-bit UTXO identifier, held as its 32 big-endian bytes.
#[derive(Clone, Copy, Debug, PartialEq, Eq)]
pub struct UtxoId {
    be: [u8; 32],
}

impl UtxoId {
    /// The identifier as a number.
    pub closed spec fn value(&self) -> nat {
        be_value(self.be@)
    }

    /// Builds the identifier that 32 big-endian bytes denote.
    pub fn from_be_bytes(be: [u8; 32]) -> (r: UtxoId)
        ensures
            r.value() == be_value(be@),
    {
        UtxoId { be }
    }

    /// Reads an identifier written in decimal; `None` when the string holds
    /// anything but digits or its value does not fit in 256 bits.
    pub fn from_dec_str(s: &str) -> (r: Option<UtxoId>)
        ensures
            r is Some <==> is_decimal(s@) && decimal_value(s@) < pow2(256),
            r matches Some(id) ==> id.value() == decimal_value(s@),
    {
        match u256_from_dec_str(s) {
            Ok(id) => Some(id),
            Err(_) => None,
        }
    }

    /// The 32-byte big-endian encoding of the identifier.
    pub fn to_big_endian(&self) -> (r: Vec<u8>)
        ensures
            r@ == be_bytes(self.value(), 32),
            r@.len() == 32,
            be_value(r@) == self.value(),
    {
        let mut out: Vec<u8> = Vec::new();
        let mut i: usize = 0;
        while i < 32
            invariant
                i <= 32,
                out@ == self.be@.subrange(0, i as int),
            decreases 32 - i,
        {
            out.push(self.be[i]);
            i = i + 1;
            assert(out@ == self.be@.subrange(0, i as int));
        }
        proof {
            assert(out@ == self.be@);
            lemma_be_bytes_of_value(self.be@);
        }
        out
    }
}

} // verus!
