//! Verified byte-level codecs: big- and little-endian integer bytes,
//! hexadecimal character tests, and byte-string comparison.

use vstd::prelude::*;
use vstd::arithmetic::power::pow;

verus! {

/// The big-endian rendering of `v mod 256^n` in exactly `n` bytes.
pub open spec fn be_bytes_of(v: nat, n: nat) -> Seq<u8>
    decreases n,
{
    if n == 0 {
        Seq::<u8>::empty()
    } else {
        be_bytes_of(v / 256, (n - 1) as nat) + seq![(v % 256) as u8]
    }
}

/// The value of a big-endian byte string.
pub open spec fn be_val_of(s: Seq<u8>) -> nat
    decreases s.len(),
{
    if s.len() == 0 {
        0
    } else {
        (be_val_of(s.drop_last()) * 256 + s.last()) as nat
    }
}

/// The little-endian rendering of `v mod 256^n` in exactly `n` bytes.
pub open spec fn le_bytes_of(v: nat, n: nat) -> Seq<u8>
    decreases n,
{
    if n == 0 {
        Seq::<u8>::empty()
    } else {
        seq![(v % 256) as u8] + le_bytes_of(v / 256, (n - 1) as nat)
    }
}

/// The value of a little-endian byte string.
pub open spec fn le_val_of(s: Seq<u8>) -> nat
    decreases s.len(),
{
    if s.len() == 0 {
        0
    } else {
        (s.first() + 256 * le_val_of(s.drop_first())) as nat
    }
}

/// Rendering `v` big-endian and reading the bytes back yields `v mod 256^n`.
pub proof fn lemma_be_val_of_be_bytes(v: nat, n: nat)
    ensures
        be_bytes_of(v, n).len() == n,
        be_val_of(be_bytes_of(v, n)) == v % (pow(256, n) as nat),
    decreases n,
{
    vstd::arithmetic::power::lemma_pow_positive(256, n);
    if n == 0 {
        vstd::arithmetic::power::lemma_pow0(256);
    } else {
        let m = (n - 1) as nat;
        lemma_be_val_of_be_bytes(v / 256, m);
        let s = be_bytes_of(v, n);
        assert(s.drop_last() =~= be_bytes_of(v / 256, m));
        vstd::arithmetic::power::lemma_pow_positive(256, m);
        assert(pow(256, n) == 256 * pow(256, m)) by {
            vstd::arithmetic::power::lemma_pow1(256);
            vstd::arithmetic::power::lemma_pow_adds(256, 1, m);
        }
        let pm = pow(256, m) as nat;
        assert(be_val_of(s) == ((v / 256) % pm) * 256 + v % 256);
        vstd::arithmetic::div_mod::lemma_mod_breakdown(v as int, 256, pm as int);
    }
}

/// Rendering `v` little-endian and reading the bytes back yields `v mod 256^n`.
pub proof fn lemma_le_val_of_le_bytes(v: nat, n: nat)
    ensures
        le_bytes_of(v, n).len() == n,
        le_val_of(le_bytes_of(v, n)) == v % (pow(256, n) as nat),
    decreases n,
{
    vstd::arithmetic::power::lemma_pow_positive(256, n);
    if n == 0 {
        vstd::arithmetic::power::lemma_pow0(256);
    } else {
        let m = (n - 1) as nat;
        lemma_le_val_of_le_bytes(v / 256, m);
        let s = le_bytes_of(v, n);
        assert(s.drop_first() =~= le_bytes_of(v / 256, m));
        vstd::arithmetic::power::lemma_pow_positive(256, m);
        assert(pow(256, n) == 256 * pow(256, m)) by {
            vstd::arithmetic::power::lemma_pow1(256);
            vstd::arithmetic::power::lemma_pow_adds(256, 1, m);
        }
        let pm = pow(256, m) as nat;
        assert(le_val_of(s) == v % 256 + 256 * ((v / 256) % pm));
        vstd::arithmetic::div_mod::lemma_mod_breakdown(v as int, 256, pm as int);
    }
}

/// Distinct values below `256^n` have distinct big-endian renderings.
pub proof fn lemma_be_bytes_injective(a: nat, b: nat, n: nat)
    requires
        a < pow(256, n),
        b < pow(256, n),
        a != b,
    ensures
        be_bytes_of(a, n) != be_bytes_of(b, n),
{
    lemma_be_val_of_be_bytes(a, n);
    lemma_be_val_of_be_bytes(b, n);
    vstd::arithmetic::div_mod::lemma_small_mod(a, pow(256, n) as nat);
    vstd::arithmetic::div_mod::lemma_small_mod(b, pow(256, n) as nat);
}

/// Writes `v` as `n` big-endian bytes; `v` must fit.
pub fn u128_to_be_bytes(v: u128, n: usize) -> (r: Vec<u8>)
    ensures
        r@ == be_bytes_of(v as nat, n as nat),
    decreases n,
{
    if n == 0 {
        let r: Vec<u8> = Vec::new();
        proof {
            assert(r@ =~= be_bytes_of(v as nat, 0));
        }
        r
    } else {
        let mut r = u128_to_be_bytes(v / 256, n - 1);
        r.push((v % 256) as u8);
        proof {
            assert(r@ =~= be_bytes_of(v as nat, n as nat));
        }
        r
    }
}

/// Writes `v` as `n` little-endian bytes.
pub fn u64_to_le_bytes(v: u64, n: usize) -> (r: Vec<u8>)
    ensures
        r@ == le_bytes_of(v as nat, n as nat),
    decreases n,
{
    if n == 0 {
        let r: Vec<u8> = Vec::new();
        proof {
            assert(r@ =~= le_bytes_of(v as nat, 0));
        }
        r
    } else {
        let rest = u64_to_le_bytes(v / 256, n - 1);
        let mut r: Vec<u8> = Vec::new();
        r.push((v % 256) as u8);
        let mut i: usize = 0;
        let rest_len = rest.len();
        while i < rest_len
            invariant
                rest_len == rest@.len(),
                i <= rest_len,
                r@ == seq![(v as nat % 256) as u8] + rest@.take(i as int),
            decreases rest_len - i,
        {
            r.push(rest[i]);
            proof {
                assert(rest@.take(i + 1) =~= rest@.take(i as int) + seq![rest@[i as int]]);
            }
            i = i + 1;
        }
        proof {
            assert(rest@.take(rest_len as int) =~= rest@);
            assert(r@ =~= le_bytes_of(v as nat, n as nat));
        }
        r
    }
}

/// If `q` exceeds the integer quotient `m / d`, then `q * d` exceeds `m`.
pub proof fn lemma_div_bound_exceeds(q: int, m: int, d: int)
    requires
        0 <= m,
        0 < d,
        q > m / d,
    ensures
        q * d > m,
{
    vstd::arithmetic::div_mod::lemma_fundamental_div_mod(m, d);
    vstd::arithmetic::div_mod::lemma_mod_bound(m, d);
    vstd::arithmetic::mul::lemma_mul_inequality(m / d + 1, q, d);
    vstd::arithmetic::mul::lemma_mul_is_distributive_add_other_way(d, m / d, 1);
    vstd::arithmetic::mul::lemma_mul_is_commutative(m / d, d);
}

/// If `q` is at most the integer quotient `m / d`, then `q * d` is at most `m`.
pub proof fn lemma_div_bound_fits(q: int, m: int, d: int)
    requires
        0 <= m,
        0 < d,
        0 <= q,
        q <= m / d,
    ensures
        q * d <= m,
{
    vstd::arithmetic::div_mod::lemma_fundamental_div_mod(m, d);
    vstd::arithmetic::div_mod::lemma_mod_bound(m, d);
    vstd::arithmetic::mul::lemma_mul_inequality(q, m / d, d);
    vstd::arithmetic::mul::lemma_mul_is_commutative(m / d, d);
}

/// Whether two byte strings hold the same bytes.
pub fn bytes_eq(a: &[u8], b: &[u8]) -> (r: bool)
    ensures
        r == (a@ == b@),
{
    if a.len() != b.len() {
        return false;
    }
    let n = a.len();
    for i in 0..n
        invariant
            n == a@.len() && n == b@.len(),
            forall|k: int| 0 <= k < i ==> a@[k] == b@[k],
    {
        if a[i] != b[i] {
            return false;
        }
    }
    proof {
        assert(a@ =~= b@);
    }
    true
}

/// Whether `c` is a hexadecimal digit character.
pub open spec fn is_hex_char(c: char) -> bool {
    ('0' <= c && c <= '9') || ('a' <= c && c <= 'f') || ('A' <= c && c <= 'F')
}

/// Whether every character of `s` is a hexadecimal digit.
pub open spec fn all_hex_chars(s: Seq<char>) -> bool {
    forall|i: int| 0 <= i < s.len() ==> is_hex_char(#[trigger] s[i])
}

/// Checks that `s` consists of hexadecimal digit characters only.
pub fn check_all_hex(s: &str) -> (r: bool)
    ensures
        r == all_hex_chars(s@),
{
    let n = s.unicode_len();
    for i in 0..n
        invariant
            n == s@.len(),
            forall|k: int| 0 <= k < i ==> is_hex_char(#[trigger] s@[k]),
    {
        let c = s.get_char(i);
        let ok = ('0' <= c && c <= '9') || ('a' <= c && c <= 'f') || ('A' <= c && c <= 'F');
        if !ok {
            return false;
        }
    }
    true
}

} // verus!
