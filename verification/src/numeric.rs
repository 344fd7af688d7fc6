//! Spec-level numeric encodings shared by the conversion layer: decimal
//! numerals (sequences of ASCII digits) and fixed-width big-endian byte
//! strings, with the inversion lemmas the round-trip laws rest on.

use vstd::prelude::*;

verus! {

/// `b` is an ASCII decimal digit.
pub open spec fn is_dec_digit(b: u8) -> bool {
    48 <= b <= 57
}

pub open spec fn all_dec_digits(s: Seq<u8>) -> bool {
    forall|i: int| 0 <= i < s.len() ==> is_dec_digit(#[trigger] s[i])
}

/// A canonical decimal numeral: at least one digit, no leading zero.
pub open spec fn canonical_dec(s: Seq<u8>) -> bool {
    &&& all_dec_digits(s)
    &&& s.len() > 0
    &&& s.len() > 1 ==> s[0] != 48
}

pub open spec fn digit_val(b: u8) -> nat {
    if 48 <= b {
        (b - 48) as nat
    } else {
        0
    }
}

/// The number denoted by a sequence of ASCII digits, most significant first.
pub open spec fn dec_value(s: Seq<u8>) -> nat
    decreases s.len(),
{
    if s.len() == 0 {
        0
    } else {
        dec_value(s.drop_last()) * 10 + digit_val(s.last())
    }
}

/// The canonical decimal numeral of `n`.
pub open spec fn dec_of(n: nat) -> Seq<u8>
    decreases n,
{
    if n < 10 {
        seq![(n + 48) as u8]
    } else {
        dec_of(n / 10).push(((n % 10) + 48) as u8)
    }
}

pub open spec fn pow256(k: nat) -> nat
    decreases k,
{
    if k == 0 {
        1
    } else {
        256 * pow256((k - 1) as nat)
    }
}

/// The number denoted by a big-endian byte string.
pub open spec fn be_val(s: Seq<u8>) -> nat
    decreases s.len(),
{
    if s.len() == 0 {
        0
    } else {
        be_val(s.drop_last()) * 256 + (s.last() as nat)
    }
}

/// The `len`-byte big-endian form of `n` (mod 256^len).
pub open spec fn be_of(n: nat, len: nat) -> Seq<u8>
    decreases len,
{
    if len == 0 {
        Seq::empty()
    } else {
        be_of(n / 256, (len - 1) as nat).push((n % 256) as u8)
    }
}

/// The canonical numeral of `n` denotes `n`, is canonical, and starts with a
/// nonzero digit whenever `n` is nonzero.
pub proof fn lemma_dec_of_value(n: nat)
    ensures
        canonical_dec(dec_of(n)),
        dec_value(dec_of(n)) == n,
        n >= 1 ==> dec_of(n)[0] != 48,
    decreases n,
{
    if n < 10 {
        let s = dec_of(n);
        assert(s.len() == 1);
        assert(s.drop_last().len() == 0);
        assert(dec_value(s.drop_last()) == 0);
        assert(s.last() == (n + 48) as u8);
        assert(dec_value(s) == digit_val((n + 48) as u8));
    } else {
        lemma_dec_of_value(n / 10);
        let p = dec_of(n / 10);
        let d = ((n % 10) + 48) as u8;
        let s = p.push(d);
        assert(s.drop_last() =~= p);
        assert(s.last() == d);
        assert(dec_value(s) == dec_value(p) * 10 + digit_val(d));
        vstd::arithmetic::div_mod::lemma_fundamental_div_mod(n as int, 10);
        assert(dec_value(s) == n);
        assert(n / 10 >= 1);
        assert(s[0] == p[0]);
        assert forall|i: int| 0 <= i < s.len() implies is_dec_digit(#[trigger] s[i]) by {
            if i < p.len() {
                assert(s[i] == p[i]);
            } else {
                assert(s[i] == d);
            }
        }
    }
}

/// A digit string with a nonzero leading digit denotes a positive number.
pub proof fn lemma_dec_value_pos(s: Seq<u8>)
    requires
        all_dec_digits(s),
        s.len() >= 1,
        s[0] != 48,
    ensures
        dec_value(s) >= 1,
    decreases s.len(),
{
    if s.len() == 1 {
        assert(s.last() == s[0]);
        assert(is_dec_digit(s[0]));
    } else {
        let p = s.drop_last();
        assert(p[0] == s[0]);
        assert forall|i: int| 0 <= i < p.len() implies is_dec_digit(#[trigger] p[i]) by {
            assert(p[i] == s[i]);
        }
        lemma_dec_value_pos(p);
    }
}

/// Reading a canonical numeral and writing the number back returns the
/// identical numeral.
pub proof fn lemma_dec_value_of(s: Seq<u8>)
    requires
        canonical_dec(s),
    ensures
        dec_of(dec_value(s)) == s,
    decreases s.len(),
{
    let d = s.last();
    let dv = digit_val(d);
    assert(is_dec_digit(d));
    if s.len() == 1 {
        assert(s.drop_last().len() == 0);
        assert(dec_value(s.drop_last()) == 0);
        assert(dec_value(s) == dv);
        assert(((dv + 48) as u8) == d);
        assert(dec_of(dv) =~= s);
    } else {
        let p = s.drop_last();
        assert(p[0] == s[0]);
        assert forall|i: int| 0 <= i < p.len() implies is_dec_digit(#[trigger] p[i]) by {
            assert(p[i] == s[i]);
        }
        lemma_dec_value_pos(p);
        lemma_dec_value_of(p);
        let vp = dec_value(p);
        let v = dec_value(s);
        assert(v == vp * 10 + dv);
        assert(v / 10 == vp && v % 10 == dv) by (nonlinear_arith)
            requires
                v == vp * 10 + dv,
                0 <= dv < 10,
                vp >= 0,
        ;
        assert(v >= 10);
        assert(((dv + 48) as u8) == d);
        assert(dec_of(v) == dec_of(vp).push(d));
        assert(p.push(d) =~= s);
    }
}

pub proof fn lemma_be_of_len(n: nat, len: nat)
    ensures
        be_of(n, len).len() == len,
    decreases len,
{
    if len > 0 {
        lemma_be_of_len(n / 256, (len - 1) as nat);
    }
}

/// Writing `n < 256^len` in `len` big-endian bytes and reading it back
/// returns `n`.
pub proof fn lemma_be_of_val(n: nat, len: nat)
    requires
        n < pow256(len),
    ensures
        be_val(be_of(n, len)) == n,
    decreases len,
{
    if len == 0 {
    } else {
        let m = n / 256;
        let q = pow256((len - 1) as nat);
        assert(m < q) by (nonlinear_arith)
            requires
                n < 256 * q,
                m == n / 256,
                n >= 0,
                q >= 1,
        ;
        lemma_be_of_val(m, (len - 1) as nat);
        let s = be_of(n, len);
        assert(s.drop_last() =~= be_of(m, (len - 1) as nat));
        assert(s.last() == (n % 256) as u8);
        vstd::arithmetic::div_mod::lemma_fundamental_div_mod(n as int, 256);
        assert(be_val(s) == m * 256 + n % 256);
    }
}

/// Every byte string is the big-endian form of the number it denotes.
pub proof fn lemma_be_val_of(s: Seq<u8>)
    ensures
        be_val(s) < pow256(s.len()),
        be_of(be_val(s), s.len()) == s,
    decreases s.len(),
{
    if s.len() == 0 {
        assert(be_of(0, 0) =~= s);
    } else {
        let p = s.drop_last();
        lemma_be_val_of(p);
        let v = be_val(s);
        let vp = be_val(p);
        let d = s.last() as nat;
        assert(v == vp * 256 + d);
        assert(v / 256 == vp && v % 256 == d) by (nonlinear_arith)
            requires
                v == vp * 256 + d,
                0 <= d < 256,
                vp >= 0,
        ;
        let q = pow256(p.len());
        assert(v < 256 * q) by (nonlinear_arith)
            requires
                v == vp * 256 + d,
                vp < q,
                0 <= d < 256,
        ;
        assert(pow256(s.len()) == 256 * q);
        assert(((v % 256) as u8) == s.last());
        assert(be_of(v, s.len()) == be_of(vp, p.len()).push(s.last()));
        assert(be_of(vp, p.len()).push(s.last()) =~= s);
    }
}


pub proof fn lemma_pow256_pos(k: nat)
    ensures
        pow256(k) >= 1,
    decreases k,
{
    if k > 0 {
        lemma_pow256_pos((k - 1) as nat);
    }
}

pub proof fn lemma_pow256_le(a: nat, b: nat)
    requires
        a <= b,
    ensures
        pow256(a) <= pow256(b),
    decreases b,
{
    lemma_pow256_pos(a);
    if a < b {
        lemma_pow256_le(a, (b - 1) as nat);
        lemma_pow256_pos((b - 1) as nat);
    }
}

/// 256^8 is the count of 64-bit values.
pub proof fn lemma_pow256_8()
    ensures
        pow256(8) == 0x10000000000000000,
{
    assert(pow256(0) == 1);
    assert(pow256(1) == 256);
    assert(pow256(2) == 0x10000);
    assert(pow256(3) == 0x1000000);
    assert(pow256(4) == 0x100000000);
    assert(pow256(5) == 0x10000000000);
    assert(pow256(6) == 0x1000000000000);
    assert(pow256(7) == 0x100000000000000);
    assert(pow256(8) == 0x10000000000000000);
}

} // verus!
