use vstd::arithmetic::div_mod::{lemma_div_denominator, lemma_fundamental_div_mod};
use vstd::arithmetic::power::pow;
use vstd::prelude::*;

verus! {

/// The number that a big-endian byte string denotes.
pub open spec fn be_value(s: Seq<u8>) -> nat
    decreases s.len(),
{
    if s.len() == 0 {
        0
    } else {
        be_value(s.drop_last()) * 256 + s.last() as nat
    }
}

/// The `n`-byte big-endian encoding of `v` (of `v` modulo `256^n`).
pub open spec fn be_bytes(v: nat, n: nat) -> Seq<u8>
    decreases n,
{
    if n == 0 {
        Seq::empty()
    } else {
        be_bytes(v / 256, (n - 1) as nat).push((v % 256) as u8)
    }
}

/// A byte string is the big-endian encoding, at its own length, of the
/// number it denotes.
pub proof fn lemma_be_bytes_of_value(s: Seq<u8>)
    ensures
        be_bytes(be_value(s), s.len()) == s,
    decreases s.len(),
{
    if s.len() > 0 {
        let p = s.drop_last();
        lemma_be_bytes_of_value(p);
        let v = be_value(s);
        assert(v / 256 == be_value(p) && v % 256 == s.last() as nat) by (nonlinear_arith)
            requires
                v == be_value(p) * 256 + s.last() as nat,
                (s.last() as nat) < 256,
        ;
        assert(s == p.push(s.last()));
    }
}

/// Encodes `x` as eight big-endian bytes.
pub fn u64_to_be_bytes(x: u64) -> (r: Vec<u8>)
    ensures
        r@.len() == 8,
        be_value(r@) == x as nat,
        r@ == be_bytes(x as nat, 8),
{
    let mut out: Vec<u8> = Vec::new();
    let mut d: u64 = 0x0100_0000_0000_0000;
    proof {
        reveal_with_fuel(pow, 9);
        assert(pow(256, 7) == 0x0100_0000_0000_0000);
        assert(pow(256, 8) == 0x1_0000_0000_0000_0000);
        assert(x as nat / 0x1_0000_0000_0000_0000nat == 0);
    }
    while out.len() < 8
        invariant
            out@.len() <= 8,
            d > 0,
            out@.len() < 8 ==> d as int == pow(256, (7 - out@.len()) as nat),
            be_value(out@) == x as nat / (pow(256, (8 - out@.len()) as nat) as nat),
        decreases 8 - out@.len(),
    {
        let b = ((x / d) % 256) as u8;
        proof {
            let k = out@.len();
            let e = (7 - k) as nat;
            assert(pow(256, e + 1) == 256 * pow(256, e)) by {
                reveal(pow);
            }
            assert((8 - k) as nat == e + 1);
            lemma_div_denominator(x as int, pow(256, e), 256);
            lemma_fundamental_div_mod((x as int) / pow(256, e), 256);
            assert(out@.push(b).drop_last() == out@);
        }
        out.push(b);
        proof {
            let e = (7 - (out@.len() - 1)) as nat;
            if e > 0 {
                assert(pow(256, e) == 256 * pow(256, (e - 1) as nat)) by {
                    reveal(pow);
                }
                vstd::arithmetic::power::lemma_pow_positive(256, (e - 1) as nat);
            } else {
                assert(pow(256, 0) == 1) by {
                    reveal(pow);
                }
            }
        }
        if d > 1 {
            d = d / 256;
        }
    }
    proof {
        assert(pow(256, 0) == 1) by {
            reveal(pow);
        }
        assert(out@.len() == 8);
        assert(x as nat / 1nat == x as nat);
        lemma_be_bytes_of_value(out@);
    }
    out
}

} // verus!

verus! {

/// An encoding at width `n` has `n` bytes.
pub proof fn lemma_be_bytes_len(v: nat, n: nat)
    ensures
        be_bytes(v, n).len() == n,
    decreases n,
{
    if n > 0 {
        lemma_be_bytes_len(v / 256, (n - 1) as nat);
    }
}

/// Reading back an encoding at width `n` gives the number modulo `256^n`.
pub proof fn lemma_value_of_be_bytes(v: nat, n: nat)
    ensures
        be_value(be_bytes(v, n)) == v % (pow(256, n) as nat),
    decreases n,
{
    reveal(pow);
    if n == 0 {
        assert(v % 1 == 0);
    } else {
        let m = (n - 1) as nat;
        lemma_value_of_be_bytes(v / 256, m);
        vstd::arithmetic::power::lemma_pow_positive(256, m);
        let s = be_bytes(v, n);
        assert(s.drop_last() == be_bytes(v / 256, m));
        vstd::arithmetic::div_mod::lemma_mod_breakdown(v as int, 256, pow(256, m));
        assert(pow(256, n) == 256 * pow(256, m));
    }
}

} // verus!
