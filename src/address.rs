use vstd::prelude::*;

verus! {

/// Width of an account address.
pub const ADDRESS_BYTES: usize = 20;

/// The characters that a hex address may hold between its digits.
pub open spec fn is_hex_space(c: char) -> bool {
    c == ' ' || c == '\r' || c == '\n' || c == '\t'
}

/// The value of a hex digit of either case; -1 for any other character.
pub open spec fn hex_value(c: char) -> int {
    if '0' <= c <= '9' {
        c as int - '0' as int
    } else if 'a' <= c <= 'f' {
        c as int - 'a' as int + 10
    } else if 'A' <= c <= 'F' {
        c as int - 'A' as int + 10
    } else {
        -1
    }
}

/// `s` without one leading `0x`.
pub open spec fn strip_hex_prefix(s: Seq<char>) -> Seq<char> {
    if s.len() >= 2 && s[0] == '0' && s[1] == 'x' {
        s.skip(2)
    } else {
        s
    }
}

/// The characters of an address string that count as digits.
pub open spec fn address_digits(s: Seq<char>) -> Seq<char> {
    strip_hex_prefix(s).filter(|c: char| !is_hex_space(c))
}

/// Whether `s` writes an address: forty hex digits, after an optional `0x`
/// and with blanks ignored.
pub open spec fn address_accepted(s: Seq<char>) -> bool {
    &&& address_digits(s).len() == 2 * ADDRESS_BYTES
    &&& forall|i: int| 0 <= i < address_digits(s).len() ==> hex_value(#[trigger] address_digits(s)[i]) >= 0
}

/// The bytes that pairs of hex digits denote, most significant digit first.
pub open spec fn hex_decode(d: Seq<char>) -> Seq<u8> {
    Seq::new(d.len() / 2, |i: int| (hex_value(d[2 * i]) * 16 + hex_value(d[2 * i + 1])) as u8)
}

/// Relies on fixed-hash's `FromStr` for ethers' `Address` (`H160`), which
/// strips one `0x`, skips blanks, and reads exactly forty hex digits into
/// twenty bytes; `as_bytes` hands them out.
#[verifier::external_body]
fn address_from_str(s: &str) -> (r: Option<Vec<u8>>)
    ensures
        r is Some <==> address_accepted(s@),
        r matches Some(b) ==> b@ == hex_decode(address_digits(s@)),
{
    match <ethers::types::Address as std::str::FromStr>::from_str(s) {
        Ok(a) => Some(a.as_bytes().to_vec()),
        Err(_) => None,
    }
}

/// Reads the address that a mixed output goes to; `None` when the string
/// does not write one.
pub fn parse_address(s: &str) -> (r: Option<Vec<u8>>)
    ensures
        r is Some <==> address_accepted(s@),
        r matches Some(b) ==> b@ == hex_decode(address_digits(s@)) && b@.len() == ADDRESS_BYTES,
{
    address_from_str(s)
}

} // verus!
