//! Slot keys: the hash that addresses a storage slot, and the 256-bit
//! addition that reaches the slots after it.

use crate::bytes::{
    be_bytes, be_value, decimal_bytes, decimal_digits, lemma_be_bytes_of_value,
    lemma_be_value_bound, lemma_be_value_of_bytes, lemma_be_value_prepend,
    lemma_decimal_digits_injective, lemma_decimal_digits_shape, lemma_pow256_positive, pow256,
};
use crate::state::StateIndex;
use vstd::prelude::*;
use vstd::string::{is_ascii, StrSliceExecFns};

verus! {

/// What every string hashed into a slot key starts with. It keeps slot keys
/// apart from hashes taken for other purposes.
pub const STORAGE_DOMAIN_SEPARATOR: &'static str = "storage_";

/// The bytes of [`STORAGE_DOMAIN_SEPARATOR`].
pub open spec fn domain_separator() -> Seq<u8> {
    seq![0x73u8, 0x74u8, 0x6fu8, 0x72u8, 0x61u8, 0x67u8, 0x65u8, 0x5fu8]
}

/// The string that is hashed into the key of the slot at `path` below storage
/// variable `ix`: `storage_<ix>`, then `_<index>` for each index of the path.
pub open spec fn storage_key_preimage(ix: nat, path: Seq<usize>) -> Seq<u8>
    decreases path.len(),
{
    if path.len() == 0 {
        domain_separator() + decimal_digits(ix)
    } else {
        storage_key_preimage(ix, path.drop_last()) + seq![0x5fu8] + decimal_digits(
            path.last() as nat,
        )
    }
}

/// The SHA-256 digest of a byte string.
pub uninterp spec fn sha256(data: Seq<u8>) -> Seq<u8>;

/// The key of the slot at `path` below storage variable `ix`.
pub open spec fn spec_storage_key(ix: nat, path: Seq<usize>) -> Seq<u8> {
    sha256(storage_key_preimage(ix, path))
}

/// The key `offset` slots after `key`: their sum as 256-bit unsigned numbers,
/// wrapping around at `2^256`, in big-endian bytes.
pub open spec fn spec_add_to_b256(key: Seq<u8>, offset: u64) -> Seq<u8> {
    be_bytes(((be_value(key) + offset as nat) % pow256(32)) as nat, 32)
}

/// Hashes with `fuel_crypto::Hasher::hash`, which runs SHA-256 over the bytes
/// it is given and returns the 32-byte digest. The digest is a function of the
/// bytes alone; the contract names it and says no more about it.
#[verifier::external_body]
fn hash_bytes(data: &Vec<u8>) -> (digest: [u8; 32])
    ensures
        digest@ == sha256(data@),
{
    *fuel_crypto::Hasher::hash(data)
}

/// Appends the bytes of `tail` to `buf`.
fn append_bytes(buf: &mut Vec<u8>, tail: &Vec<u8>)
    ensures
        final(buf)@ == old(buf)@ + tail@,
{
    let mut i: usize = 0;
    while i < tail.len()
        invariant
            i <= tail.len(),
            buf@ == old(buf)@ + tail@.subrange(0, i as int),
        decreases tail.len() - i,
    {
        buf.push(tail[i]);
        i += 1;
        proof {
            assert(buf@ =~= old(buf)@ + tail@.subrange(0, i as int));
        }
    }
    proof {
        assert(tail@.subrange(0, i as int) =~= tail@);
    }
}

/// Hands out the storage key for a state index and a list of subfield
/// indices: the SHA-256 digest of `storage_<ix>_<idx1>_<idx2>_..`.
pub fn get_storage_key(ix: &StateIndex, indices: &[usize]) -> (key: [u8; 32])
    ensures
        key@ == spec_storage_key(ix@, indices@),
{
    let mut preimage: Vec<u8> = STORAGE_DOMAIN_SEPARATOR.as_bytes_vec();
    proof {
        reveal_strlit("storage_");
        assert(is_ascii(STORAGE_DOMAIN_SEPARATOR));
        assert(preimage@ =~= domain_separator());
    }
    let digits = decimal_bytes(ix.to_usize());
    append_bytes(&mut preimage, &digits);
    proof {
        assert(indices@.subrange(0, 0) =~= Seq::<usize>::empty());
    }
    let mut i: usize = 0;
    while i < indices.len()
        invariant
            i <= indices.len(),
            preimage@ == storage_key_preimage(ix@, indices@.subrange(0, i as int)),
        decreases indices.len() - i,
    {
        let ghost before = indices@.subrange(0, i as int);
        preimage.push(0x5fu8);
        let digits = decimal_bytes(indices[i]);
        append_bytes(&mut preimage, &digits);
        i += 1;
        proof {
            let now = indices@.subrange(0, i as int);
            assert(now.drop_last() =~= before);
            assert(now.last() == indices@[i - 1]);
            assert(storage_key_preimage(ix@, before).push(0x5fu8) =~= storage_key_preimage(
                ix@,
                before,
            ) + seq![0x5fu8]);
        }
    }
    proof {
        assert(indices@.subrange(0, i as int) =~= indices@);
    }
    hash_bytes(&preimage)
}

/// Adds `y` to the 256-bit big-endian number `x`, wrapping around at `2^256`.
pub fn add_to_b256(x: [u8; 32], y: u64) -> (sum: [u8; 32])
    ensures
        sum@ == spec_add_to_b256(x@, y),
{
    let mut out: [u8; 32] = x;
    let mut carry: u64 = y;
    let mut i: usize = 32;
    proof {
        assert(out@.subrange(32, 32) =~= Seq::<u8>::empty());
        assert(x@.subrange(32, 32) =~= Seq::<u8>::empty());
        assert(be_value(Seq::<u8>::empty()) == 0);
        assert(pow256(0) == 1);
        assert(carry as nat * pow256(0) == y as nat);
    }
    while i > 0
        invariant
            i <= 32,
            be_value(out@.subrange(i as int, 32)) + carry as nat * pow256((32 - i) as nat)
                == be_value(x@.subrange(i as int, 32)) + y as nat,
        decreases i,
    {
        let ghost out_before = out@;
        let ghost carry_before = carry as nat;
        let ghost p = pow256((32 - i) as nat);
        i -= 1;
        let digit: u64 = x[i] as u64 + carry % 256;
        let low: u8 = (digit % 256) as u8;
        out[i] = low;
        carry = carry / 256 + digit / 256;
        proof {
            let done = out_before.subrange(i as int + 1, 32);
            let given = x@.subrange(i as int + 1, 32);
            assert(out@.subrange(i as int, 32) =~= seq![low] + done);
            assert(x@.subrange(i as int, 32) =~= seq![x@[i as int]] + given);
            lemma_be_value_prepend(low, done);
            lemma_be_value_prepend(x@[i as int], given);
            assert(pow256((32 - i) as nat) == 256 * p);
            let xi = x@[i as int] as nat;
            let d = digit as nat;
            let c = carry as nat;
            assert((d % 256) * p + c * (256 * p) == xi * p + carry_before * p)
                by (nonlinear_arith)
                requires
                    d == xi + carry_before % 256,
                    c == carry_before / 256 + d / 256,
            ;
        }
    }
    proof {
        assert(out@.subrange(0, 32) =~= out@);
        assert(x@.subrange(0, 32) =~= x@);
        lemma_be_value_bound(out@);
        lemma_pow256_positive(32);
        let total = be_value(x@) + y as nat;
        assert(carry as nat * pow256(32) == pow256(32) * carry as nat) by (nonlinear_arith);
        vstd::arithmetic::div_mod::lemma_fundamental_div_mod_converse(
            total as int,
            pow256(32) as int,
            carry as int,
            be_value(out@) as int,
        );
        lemma_be_bytes_of_value(out@);
    }
    out
}

/// The key of a slot depends on nothing but the state index and the path:
/// equal inputs have equal keys.
pub proof fn lemma_storage_key_deterministic(
    ix1: nat,
    path1: Seq<usize>,
    ix2: nat,
    path2: Seq<usize>,
)
    requires
        ix1 == ix2,
        path1 =~= path2,
    ensures
        spec_storage_key(ix1, path1) == spec_storage_key(ix2, path2),
{
}

/// The head of a hashed string: all of it but the last underscore and the
/// numeral behind it.
spec fn preimage_head(ix: nat, path: Seq<usize>) -> Seq<u8> {
    if path.len() == 0 {
        domain_separator().drop_last()
    } else {
        storage_key_preimage(ix, path.drop_last())
    }
}

/// The number behind the last underscore of a hashed string.
spec fn preimage_last(ix: nat, path: Seq<usize>) -> nat {
    if path.len() == 0 {
        ix
    } else {
        path.last() as nat
    }
}

/// Every hashed string is a head, an underscore and a numeral, and is longer
/// than the domain separator.
proof fn lemma_preimage_shape(ix: nat, path: Seq<usize>)
    ensures
        storage_key_preimage(ix, path) == preimage_head(ix, path) + seq![0x5fu8] + decimal_digits(
            preimage_last(ix, path),
        ),
        storage_key_preimage(ix, path).len() > 8,
    decreases path.len(),
{
    lemma_decimal_digits_shape(preimage_last(ix, path));
    if path.len() == 0 {
        assert(domain_separator() =~= domain_separator().drop_last() + seq![0x5fu8]);
    } else {
        lemma_preimage_shape(ix, path.drop_last());
    }
}

/// Two strings that end in an underscore followed by a numeral are equal
/// only if their heads are equal and their numerals are.
proof fn lemma_split_at_last_underscore(a1: Seq<u8>, n1: nat, a2: Seq<u8>, n2: nat)
    requires
        a1 + seq![0x5fu8] + decimal_digits(n1) == a2 + seq![0x5fu8] + decimal_digits(n2),
    ensures
        a1 == a2,
        n1 == n2,
{
    let d1 = decimal_digits(n1);
    let d2 = decimal_digits(n2);
    let s1 = a1 + seq![0x5fu8] + d1;
    let s2 = a2 + seq![0x5fu8] + d2;
    lemma_decimal_digits_shape(n1);
    lemma_decimal_digits_shape(n2);
    assert(s1.len() == a1.len() + 1 + d1.len());
    assert(s2.len() == a2.len() + 1 + d2.len());
    if d1.len() < d2.len() {
        let q = a1.len() as int;
        assert(s1[q] == 0x5fu8);
        assert(s2[q] == d2[q - a2.len() - 1]);
        assert(false);
    }
    if d2.len() < d1.len() {
        let q = a2.len() as int;
        assert(s2[q] == 0x5fu8);
        assert(s1[q] == d1[q - a1.len() - 1]);
        assert(false);
    }
    assert(a1 =~= s1.subrange(0, a1.len() as int));
    assert(a2 =~= s2.subrange(0, a2.len() as int));
    assert(d1 =~= s1.subrange(a1.len() as int + 1, s1.len() as int));
    assert(d2 =~= s2.subrange(a2.len() as int + 1, s2.len() as int));
    lemma_decimal_digits_injective(n1, n2);
}

/// No two slots share the string that is hashed into their key: the string
/// tells the state index and every index of the path. Whether two keys differ
/// is then a matter of the hash alone.
pub proof fn lemma_preimage_injective(ix1: nat, path1: Seq<usize>, ix2: nat, path2: Seq<usize>)
    requires
        storage_key_preimage(ix1, path1) == storage_key_preimage(ix2, path2),
    ensures
        ix1 == ix2,
        path1 == path2,
    decreases path1.len(),
{
    lemma_preimage_shape(ix1, path1);
    lemma_preimage_shape(ix2, path2);
    lemma_split_at_last_underscore(
        preimage_head(ix1, path1),
        preimage_last(ix1, path1),
        preimage_head(ix2, path2),
        preimage_last(ix2, path2),
    );
    if path1.len() == 0 {
        if path2.len() > 0 {
            lemma_preimage_shape(ix2, path2.drop_last());
            assert(false);
        }
        assert(path1 =~= path2);
    } else {
        if path2.len() == 0 {
            lemma_preimage_shape(ix1, path1.drop_last());
            assert(false);
        }
        lemma_preimage_injective(ix1, path1.drop_last(), ix2, path2.drop_last());
        assert(path1 =~= path1.drop_last().push(path1.last()));
        assert(path2 =~= path2.drop_last().push(path2.last()));
    }
}

/// Adding nothing to a key leaves the key as it is.
pub proof fn lemma_add_zero(key: Seq<u8>)
    requires
        key.len() == 32,
    ensures
        spec_add_to_b256(key, 0) == key,
{
    lemma_be_value_bound(key);
    vstd::arithmetic::div_mod::lemma_small_mod(be_value(key), pow256(32));
    lemma_be_bytes_of_value(key);
}

/// Adding `a` and then `b` to a key is adding `a + b` to it, wherever `a + b`
/// is an offset, that is fits in 64 bits. Wrapping around `2^256` on the way
/// does not matter.
pub proof fn lemma_add_twice(key: Seq<u8>, a: u64, b: u64)
    requires
        a + b <= u64::MAX,
    ensures
        spec_add_to_b256(spec_add_to_b256(key, a), b) == spec_add_to_b256(key, (a + b) as u64),
{
    let m = pow256(32);
    let v = be_value(key);
    lemma_pow256_positive(32);
    let first = ((v + a as nat) % m) as nat;
    lemma_be_value_of_bytes(first, 32);
    vstd::arithmetic::div_mod::lemma_mod_twice((v + a) as int, m as int);
    assert(be_value(spec_add_to_b256(key, a)) == first);
    vstd::arithmetic::div_mod::lemma_add_mod_noop((v + a) as int, b as int, m as int);
    vstd::arithmetic::div_mod::lemma_add_mod_noop(first as int, b as int, m as int);
    assert((first + b as nat) % m == (v + a as nat + b as nat) % m);
}

} // verus!
