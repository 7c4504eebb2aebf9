//! Byte strings as numbers and numbers as byte strings: the big-endian and
//! decimal encodings that slot keys and slot values are made of.

use vstd::prelude::*;

verus! {

/// `256^n`.
pub open spec fn pow256(n: nat) -> nat
    decreases n,
{
    if n == 0 {
        1
    } else {
        256 * pow256((n - 1) as nat)
    }
}

/// The number that `s` spells when read as big-endian base-256 digits.
pub open spec fn be_value(s: Seq<u8>) -> nat
    decreases s.len(),
{
    if s.len() == 0 {
        0
    } else {
        256 * be_value(s.drop_last()) + s.last() as nat
    }
}

/// The lowest `len` base-256 digits of `v`, most significant first.
pub open spec fn be_bytes(v: nat, len: nat) -> Seq<u8>
    decreases len,
{
    if len == 0 {
        Seq::empty()
    } else {
        be_bytes(v / 256, (len - 1) as nat).push((v % 256) as u8)
    }
}

/// `len` zero bytes.
pub open spec fn zeros(len: nat) -> Seq<u8> {
    Seq::new(len, |i: int| 0u8)
}

/// How many bytes must follow `len` bytes to reach a multiple of `unit`.
pub open spec fn padding_len(len: nat, unit: nat) -> nat {
    if unit == 0 || len % unit == 0 {
        0
    } else {
        (unit - len % unit) as nat
    }
}

/// `s` followed by as few zero bytes as make its length a multiple of `unit`.
pub open spec fn zero_padded(s: Seq<u8>, unit: nat) -> Seq<u8> {
    s + zeros(padding_len(s.len(), unit))
}

pub proof fn lemma_pow256_positive(n: nat)
    ensures
        pow256(n) > 0,
    decreases n,
{
    if n > 0 {
        lemma_pow256_positive((n - 1) as nat);
    }
}

pub proof fn lemma_be_bytes_len(v: nat, len: nat)
    ensures
        be_bytes(v, len).len() == len,
    decreases len,
{
    if len > 0 {
        lemma_be_bytes_len(v / 256, (len - 1) as nat);
    }
}

/// A byte string of length `n` spells a number below `256^n`.
pub proof fn lemma_be_value_bound(s: Seq<u8>)
    ensures
        be_value(s) < pow256(s.len()),
    decreases s.len(),
{
    if s.len() > 0 {
        lemma_be_value_bound(s.drop_last());
    }
}

/// Encoding the number that `s` spells, at the length of `s`, gives `s` back.
pub proof fn lemma_be_bytes_of_value(s: Seq<u8>)
    ensures
        be_bytes(be_value(s), s.len()) == s,
    decreases s.len(),
{
    if s.len() > 0 {
        let v = be_value(s);
        let rest = s.drop_last();
        lemma_be_bytes_of_value(rest);
        assert(v / 256 == be_value(rest));
        assert(v % 256 == s.last() as nat);
        assert(be_bytes(v, s.len()) =~= s);
    } else {
        assert(be_bytes(be_value(s), 0) =~= s);
    }
}

/// Reading back an encoding of `v` gives `v` reduced modulo `256^len`.
pub proof fn lemma_be_value_of_bytes(v: nat, len: nat)
    ensures
        be_value(be_bytes(v, len)) == v % pow256(len),
    decreases len,
{
    if len > 0 {
        let m = (len - 1) as nat;
        let p = pow256(m);
        lemma_be_value_of_bytes(v / 256, m);
        lemma_pow256_positive(m);
        let b = be_bytes(v, len);
        assert(b.drop_last() =~= be_bytes(v / 256, m));
        assert(b.last() == (v % 256) as u8);
        assert(be_value(b) == 256 * ((v / 256) % p) + v % 256);
        lemma_mod_step(v, p);
    }
}

/// `v mod 256p` splits into the last digit of `v` and `(v div 256) mod p`.
proof fn lemma_mod_step(v: nat, p: nat)
    requires
        p > 0,
    ensures
        v % (256 * p) == 256 * ((v / 256) % p) + v % 256,
{
    let q = v / 256;
    let r = v % 256;
    assert(v == 256 * q + r);
    let qq = q / p;
    let qr = q % p;
    assert(q == p * qq + qr) by (nonlinear_arith)
        requires
            p > 0,
            qq == q / p,
            qr == q % p,
    ;
    assert(0 <= qr < p) by (nonlinear_arith)
        requires
            p > 0,
            qr == q % p,
    ;
    let target = 256 * qr + r;
    assert(v == (256 * p) * qq + target) by (nonlinear_arith)
        requires
            v == 256 * q + r,
            q == p * qq + qr,
            target == 256 * qr + r,
    ;
    assert(0 <= target < 256 * p) by (nonlinear_arith)
        requires
            0 <= qr < p,
            0 <= r < 256,
            target == 256 * qr + r,
    ;
    vstd::arithmetic::div_mod::lemma_fundamental_div_mod_converse(
        v as int,
        (256 * p) as int,
        qq as int,
        target as int,
    );
}

/// Putting a digit in front of `s` adds that digit times `256^len(s)`.
pub proof fn lemma_be_value_prepend(b: u8, s: Seq<u8>)
    ensures
        be_value(seq![b] + s) == b as nat * pow256(s.len()) + be_value(s),
    decreases s.len(),
{
    let t = seq![b] + s;
    if s.len() == 0 {
        assert(t.drop_last() =~= Seq::<u8>::empty());
        assert(t.last() == b);
        assert(be_value(t) == 256 * be_value(t.drop_last()) + t.last() as nat);
        assert(pow256(0) == 1);
    } else {
        let rest = s.drop_last();
        lemma_be_value_prepend(b, rest);
        assert(t.drop_last() =~= seq![b] + rest);
        assert(t.last() == s.last());
        let p = pow256(rest.len());
        assert(pow256(s.len()) == 256 * p);
        assert(be_value(t) == 256 * be_value(t.drop_last()) + t.last() as nat);
        assert(be_value(s) == 256 * be_value(rest) + s.last() as nat);
        assert(256 * (b as nat * p + be_value(rest)) == b as nat * (256 * p) + 256 * be_value(rest))
            by (nonlinear_arith);
    }
}

/// The bytes of `n`, most significant first.
pub fn u64_to_be_bytes(n: u64) -> (out: [u8; 8])
    ensures
        out@ == be_bytes(n as nat, 8),
{
    let mut out: [u8; 8] = [0u8; 8];
    let mut rest: u64 = n;
    let mut i: usize = 8;
    while i > 0
        invariant
            i <= 8,
            out@.len() == 8,
            be_bytes(n as nat, 8) == be_bytes(rest as nat, i as nat) + out@.subrange(i as int, 8),
        decreases i,
    {
        i -= 1;
        let ghost before = out@;
        out[i] = (rest % 256) as u8;
        proof {
            assert(out@.subrange(i as int, 8) =~= seq![(rest % 256) as u8] + before.subrange(
                i as int + 1,
                8,
            ));
            assert(be_bytes(rest as nat, (i + 1) as nat) + before.subrange(i as int + 1, 8)
                =~= be_bytes((rest / 256) as nat, i as nat) + out@.subrange(i as int, 8));
        }
        rest = rest / 256;
    }
    proof {
        assert(be_bytes(rest as nat, 0) + out@.subrange(0, 8) =~= out@);
    }
    out
}

/// The decimal numeral of `n` in ASCII, without leading zeros.
pub open spec fn decimal_digits(n: nat) -> Seq<u8>
    decreases n,
{
    if n < 10 {
        seq![(48 + n) as u8]
    } else {
        decimal_digits(n / 10).push((48 + n % 10) as u8)
    }
}

/// Writes `n` as a decimal numeral.
pub fn decimal_bytes(n: usize) -> (out: Vec<u8>)
    ensures
        out@ == decimal_digits(n as nat),
{
    let mut out: Vec<u8> = Vec::new();
    let mut rest: usize = n;
    while rest >= 10
        invariant
            decimal_digits(n as nat) == decimal_digits(rest as nat) + out@,
        decreases rest,
    {
        let ghost before = out@;
        let digit: u8 = (48 + rest % 10) as u8;
        out.insert(0, digit);
        proof {
            assert(decimal_digits(rest as nat) + before =~= decimal_digits((rest / 10) as nat)
                + out@);
        }
        rest = rest / 10;
    }
    let ghost before = out@;
    out.insert(0, (48 + rest) as u8);
    proof {
        assert(decimal_digits(rest as nat) + before =~= out@);
    }
    out
}

/// The number that a decimal numeral spells.
pub open spec fn decimal_value(digits: Seq<u8>) -> nat
    decreases digits.len(),
{
    if digits.len() == 0 {
        0
    } else {
        (10 * decimal_value(digits.drop_last()) + (digits.last() - 48)) as nat
    }
}

/// A decimal numeral is not empty and holds nothing but the digits `0` to `9`.
pub proof fn lemma_decimal_digits_shape(n: nat)
    ensures
        decimal_digits(n).len() >= 1,
        forall|i: int| 0 <= i < decimal_digits(n).len() ==> 48 <= #[trigger] decimal_digits(n)[i] <= 57,
    decreases n,
{
    if n >= 10 {
        lemma_decimal_digits_shape(n / 10);
    }
}

/// A decimal numeral spells the number it was written for.
pub proof fn lemma_decimal_value(n: nat)
    ensures
        decimal_value(decimal_digits(n)) == n,
    decreases n,
{
    let d = decimal_digits(n);
    if n < 10 {
        assert(d.drop_last() =~= Seq::<u8>::empty());
        assert(decimal_value(d.drop_last()) == 0);
    } else {
        lemma_decimal_value(n / 10);
        assert(d.drop_last() =~= decimal_digits(n / 10));
    }
}

/// Different numbers have different decimal numerals.
pub proof fn lemma_decimal_digits_injective(a: nat, b: nat)
    requires
        decimal_digits(a) == decimal_digits(b),
    ensures
        a == b,
{
    lemma_decimal_value(a);
    lemma_decimal_value(b);
}

/// Zero bytes in front of a byte string do not change the number it spells.
pub proof fn lemma_be_value_leading_zeros(k: nat, s: Seq<u8>)
    ensures
        be_value(zeros(k) + s) == be_value(s),
    decreases s.len(), k,
{
    let t = zeros(k) + s;
    if s.len() > 0 {
        lemma_be_value_leading_zeros(k, s.drop_last());
        assert(t.drop_last() =~= zeros(k) + s.drop_last());
        assert(t.last() == s.last());
    } else if k > 0 {
        lemma_be_value_leading_zeros((k - 1) as nat, s);
        assert(t.drop_last() =~= zeros((k - 1) as nat) + s);
        assert(t.last() == 0u8);
    } else {
        assert(t =~= s);
    }
}

/// `s` without the zero bytes at its end.
pub open spec fn trim_trailing_zeros(s: Seq<u8>) -> Seq<u8>
    decreases s.len(),
{
    if s.len() > 0 && s.last() == 0u8 {
        trim_trailing_zeros(s.drop_last())
    } else {
        s
    }
}

/// Trimming undoes zero padding, wherever the padded string did not itself
/// end in a zero byte.
pub proof fn lemma_trim_undoes_padding(s: Seq<u8>, k: nat)
    requires
        s.len() == 0 || s.last() != 0u8,
    ensures
        trim_trailing_zeros(s + zeros(k)) == s,
    decreases k,
{
    let t = s + zeros(k);
    if k > 0 {
        lemma_trim_undoes_padding(s, (k - 1) as nat);
        assert(t.last() == 0u8);
        assert(t.drop_last() =~= s + zeros((k - 1) as nat));
    } else {
        assert(t =~= s);
    }
}

} // verus!
