//! The packed encoding of a constant: a sequence of 8-byte words.

use crate::bytes::{be_bytes, u64_to_be_bytes, zero_padded, zeros};
use crate::fault::StorageFault;
use crate::ir::{ir_type_size_in_bytes, Constant, ConstantValue, Context, Type};
use vstd::prelude::*;

verus! {

/// The words as byte strings.
pub open spec fn words_view(words: Seq<[u8; 8]>) -> Seq<Seq<u8>> {
    words.map_values(|word: [u8; 8]| word@)
}

/// `n` words of zero bytes.
pub open spec fn zero_words(n: nat) -> Seq<Seq<u8>> {
    Seq::new(n, |i: int| zeros(8))
}

/// The word of a boolean: zero but for the last byte, which is 1 for `true`.
pub open spec fn bool_word(b: bool) -> Seq<u8> {
    zeros(7).push(if b { 1u8 } else { 0u8 })
}

/// `s` cut into consecutive words; what is left over after the last whole word
/// is dropped.
pub open spec fn words_of_bytes(s: Seq<u8>) -> Seq<Seq<u8>> {
    Seq::new(s.len() / 8, |i: int| s.subrange(8 * i, 8 * i + 8))
}

/// The words of a constant `c` encoded as a value of type `ty`.
///
/// An undefined constant has no words, whatever the type. A unit is one zero
/// word, a boolean one word ending in 0 or 1, an integer one word holding it
/// big-endian, a `B256` its 32 bytes as four words, a string its bytes padded
/// with zeros to a multiple of 32 and cut into words. A struct is its fields
/// one after the other, each against the field type that the context gives. A
/// constant encoded as a union is encoded against its own type and preceded
/// by as many zero words as the union is larger; it is a fault for the
/// constant to be larger than the union, to be typed as a union itself, or
/// for either size to be unknown. An array is a fault. Any other pairing of
/// type and constant has no words.
pub open spec fn spec_serialize_to_words(c: Constant, ctx: Context, ty: Type) -> Result<
    Seq<Seq<u8>>,
    StorageFault,
>
    decreases c, (if ty is Union { 3nat } else { 2nat }), 0nat,
{
    match (ty, c.value) {
        (_, ConstantValue::Undef) => Ok(Seq::empty()),
        (Type::Unit, ConstantValue::Unit) => Ok(seq![zeros(8)]),
        (Type::Bool, ConstantValue::Bool(b)) => Ok(seq![bool_word(b)]),
        (Type::Uint(_), ConstantValue::Uint(n)) => Ok(seq![be_bytes(n as nat, 8)]),
        (Type::B256, ConstantValue::B256(b)) => Ok(words_of_bytes(b@)),
        (Type::String(_), ConstantValue::String(s)) => Ok(words_of_bytes(zero_padded(s@, 32))),
        (Type::Array(_), ConstantValue::Array(_)) => Err(StorageFault::UnsupportedShape),
        (Type::Struct(a), ConstantValue::Struct(fields)) => match ctx.spec_field_types(a) {
            Some(tys) => spec_fields_to_words(
                c,
                ctx,
                tys,
                if fields.len() <= tys.len() {
                    fields.len() as nat
                } else {
                    tys.len()
                },
            ),
            None => Err(StorageFault::InternalConsistency),
        },
        (Type::Union(_), _) => match (ctx.spec_type_size(ty), ctx.spec_type_size(c.ty)) {
            (Some(declared), Some(own)) => if c.ty is Union || declared / 8 < own / 8 {
                Err(StorageFault::InternalConsistency)
            } else {
                match spec_serialize_to_words(c, ctx, c.ty) {
                    Ok(words) => Ok(zero_words((declared / 8 - own / 8) as nat) + words),
                    Err(fault) => Err(fault),
                }
            },
            _ => Err(StorageFault::InternalConsistency),
        },
        _ => Ok(Seq::empty()),
    }
}

/// The words of the first `n` fields of the struct constant `c`, field `i`
/// encoded as a value of type `tys[i]`; the fault of the first field that has
/// one.
pub open spec fn spec_fields_to_words(c: Constant, ctx: Context, tys: Seq<Type>, n: nat) -> Result<
    Seq<Seq<u8>>,
    StorageFault,
>
    decreases c, 1nat, n,
{
    match c.value {
        ConstantValue::Struct(fields) => if n == 0 || n > fields.len() || n > tys.len() {
            Ok(Seq::empty())
        } else {
            match spec_fields_to_words(c, ctx, tys, (n - 1) as nat) {
                Ok(head) => match spec_serialize_to_words(fields[n - 1], ctx, tys[n - 1]) {
                    Ok(last) => Ok(head + last),
                    Err(fault) => Err(fault),
                },
                Err(fault) => Err(fault),
            }
        },
        _ => Ok(Seq::empty()),
    }
}

/// What a result of [`serialize_to_words`] stands for.
pub open spec fn words_result_view(r: Result<Vec<[u8; 8]>, StorageFault>) -> Result<
    Seq<Seq<u8>>,
    StorageFault,
> {
    match r {
        Ok(words) => Ok(words_view(words@)),
        Err(fault) => Err(fault),
    }
}

/// The word of a boolean.
fn word_of_bool(b: bool) -> (word: [u8; 8])
    ensures
        word@ == bool_word(b),
{
    let mut word: [u8; 8] = [0u8; 8];
    if b {
        word[7] = 1u8;
    }
    proof {
        assert(word@ =~= bool_word(b));
    }
    word
}

/// The four words of a `B256`.
fn words_of_b256(b: &[u8; 32]) -> (words: Vec<[u8; 8]>)
    ensures
        words_view(words@) == words_of_bytes(b@),
{
    let mut words: Vec<[u8; 8]> = Vec::new();
    let mut w: usize = 0;
    while w < 4
        invariant
            w <= 4,
            words@.len() == w,
            forall|k: int| 0 <= k < w ==> (#[trigger] words@[k])@ == b@.subrange(8 * k, 8 * k + 8),
        decreases 4 - w,
    {
        let mut word: [u8; 8] = [0u8; 8];
        let mut j: usize = 0;
        while j < 8
            invariant
                j <= 8,
                w < 4,
                forall|k: int| 0 <= k < j ==> word@[k] == b@[8 * w + k],
            decreases 8 - j,
        {
            word[j] = b[8 * w + j];
            j += 1;
        }
        proof {
            assert(word@ =~= b@.subrange(8 * w as int, 8 * w as int + 8));
        }
        words.push(word);
        w += 1;
    }
    proof {
        assert(words_view(words@) =~= words_of_bytes(b@));
    }
    words
}

/// The words of a string: its bytes, then zeros up to a multiple of 32.
fn words_of_string(s: &Vec<u8>) -> (words: Vec<[u8; 8]>)
    ensures
        words_view(words@) == words_of_bytes(zero_padded(s@, 32)),
{
    let len = s.len();
    let whole = len / 8;
    let count = if len % 32 == 0 {
        len / 32 * 4
    } else {
        (len / 32 + 1) * 4
    };
    let ghost padded = zero_padded(s@, 32);
    proof {
        assert(padded.len() == 8 * count);
    }
    let mut words: Vec<[u8; 8]> = Vec::new();
    let mut w: usize = 0;
    while w < count
        invariant
            w <= count,
            len == s.len(),
            whole == len / 8,
            padded == zero_padded(s@, 32),
            padded.len() == 8 * count,
            words@.len() == w,
            forall|k: int| 0 <= k < w ==> (#[trigger] words@[k])@ == padded.subrange(8 * k, 8 * k + 8),
        decreases count - w,
    {
        let mut word: [u8; 8] = [0u8; 8];
        let mut j: usize = 0;
        while j < 8
            invariant
                j <= 8,
                w < count,
                len == s.len(),
                whole == len / 8,
                padded == zero_padded(s@, 32),
                padded.len() == 8 * count,
                forall|k: int| 0 <= k < j ==> word@[k] == padded[8 * w + k],
            decreases 8 - j,
        {
            let byte: u8 = if w < whole || (w == whole && j < len % 8) {
                s[8 * w + j]
            } else {
                0u8
            };
            word[j] = byte;
            j += 1;
        }
        proof {
            assert(word@ =~= padded.subrange(8 * w as int, 8 * w as int + 8));
        }
        words.push(word);
        w += 1;
    }
    proof {
        assert(words_view(words@) =~= words_of_bytes(padded));
    }
    words
}

/// Once a field has a fault, so has every longer run of fields.
proof fn lemma_fields_fault_stays(c: Constant, ctx: Context, tys: Seq<Type>, k: nat, n: nat)
    requires
        c.value is Struct,
        k <= n,
        n <= c.value->Struct_0.len(),
        n <= tys.len(),
        spec_fields_to_words(c, ctx, tys, k) is Err,
    ensures
        spec_fields_to_words(c, ctx, tys, n) == spec_fields_to_words(c, ctx, tys, k),
    decreases n - k,
{
    if k < n {
        lemma_fields_fault_stays(c, ctx, tys, k, (n - 1) as nat);
    }
}

/// Given a constant value `constant` and a type `ty`, serialize the constant
/// into a vector of words and add left padding up to size of `ty`.
pub fn serialize_to_words(constant: &Constant, context: &Context, ty: &Type) -> (r: Result<
    Vec<[u8; 8]>,
    StorageFault,
>)
    ensures
        words_result_view(r) == spec_serialize_to_words(*constant, *context, *ty),
    decreases constant, (if ty is Union { 3nat } else { 2nat }), 0nat,
{
    match (ty, &constant.value) {
        (_, ConstantValue::Undef) => {
            let words: Vec<[u8; 8]> = Vec::new();
            proof {
                assert(words_view(words@) =~= Seq::<Seq<u8>>::empty());
            }
            Ok(words)
        },
        (Type::Unit, ConstantValue::Unit) => {
            let mut words: Vec<[u8; 8]> = Vec::new();
            let word: [u8; 8] = [0u8; 8];
            words.push(word);
            proof {
                assert(word@ =~= zeros(8));
                assert(words_view(words@) =~= seq![zeros(8)]);
            }
            Ok(words)
        },
        (Type::Bool, ConstantValue::Bool(b)) => {
            let mut words: Vec<[u8; 8]> = Vec::new();
            words.push(word_of_bool(*b));
            proof {
                assert(words_view(words@) =~= seq![bool_word(*b)]);
            }
            Ok(words)
        },
        (Type::Uint(_), ConstantValue::Uint(n)) => {
            let mut words: Vec<[u8; 8]> = Vec::new();
            words.push(u64_to_be_bytes(*n));
            proof {
                assert(words_view(words@) =~= seq![be_bytes(*n as nat, 8)]);
            }
            Ok(words)
        },
        (Type::B256, ConstantValue::B256(b)) => Ok(words_of_b256(b)),
        (Type::String(_), ConstantValue::String(s)) => Ok(words_of_string(s)),
        (Type::Array(_), ConstantValue::Array(_)) => Err(StorageFault::UnsupportedShape),
        (Type::Struct(a), ConstantValue::Struct(fields)) => {
            match context.field_types(a) {
                Some(tys) => {
                    let count = if fields.len() <= tys.len() {
                        fields.len()
                    } else {
                        tys.len()
                    };
                    let mut words: Vec<[u8; 8]> = Vec::new();
                    let mut i: usize = 0;
                    proof {
                        assert(words_view(words@) =~= Seq::<Seq<u8>>::empty());
                    }
                    while i < count
                        invariant
                            i <= count,
                            count == if fields.len() <= tys.len() {
                                fields.len()
                            } else {
                                tys.len()
                            },
                            *ty == Type::Struct(*a),
                            context.spec_field_types(*a) == Some(tys@),
                            constant.value == ConstantValue::Struct(*fields),
                            spec_fields_to_words(*constant, *context, tys@, i as nat) == Ok::<
                                Seq<Seq<u8>>,
                                StorageFault,
                            >(words_view(words@)),
                        decreases count - i,
                    {
                        match serialize_to_words(&fields[i], context, &tys[i]) {
                            Ok(mut field_words) => {
                                let ghost head = words@;
                                let ghost last = field_words@;
                                words.append(&mut field_words);
                                proof {
                                    assert(words_view(words@) =~= words_view(head) + words_view(
                                        last,
                                    ));
                                }
                            },
                            Err(fault) => {
                                proof {
                                    assert(spec_fields_to_words(
                                        *constant,
                                        *context,
                                        tys@,
                                        (i + 1) as nat,
                                    ) == Err::<Seq<Seq<u8>>, StorageFault>(fault));
                                    lemma_fields_fault_stays(
                                        *constant,
                                        *context,
                                        tys@,
                                        (i + 1) as nat,
                                        count as nat,
                                    );
                                }
                                return Err(fault);
                            },
                        }
                        i += 1;
                    }
                    Ok(words)
                },
                None => Err(StorageFault::InternalConsistency),
            }
        },
        (Type::Union(_), _) => {
            match (ir_type_size_in_bytes(context, ty), ir_type_size_in_bytes(context, &constant.ty)) {
                (Some(declared), Some(own)) => {
                    let value_size_in_words = declared / 8;
                    let constant_size_in_words = own / 8;
                    match constant.ty {
                        Type::Union(_) => Err(StorageFault::InternalConsistency),
                        _ => {
                            if value_size_in_words < constant_size_in_words {
                                return Err(StorageFault::InternalConsistency);
                            }
                            match serialize_to_words(constant, context, &constant.ty) {
                                Ok(mut tail) => {
                                    // Add enough left padding to satisfy the actual size of the union
                                    let padding_size_in_words = value_size_in_words
                                        - constant_size_in_words;
                                    let mut words: Vec<[u8; 8]> = Vec::new();
                                    let mut i: u64 = 0;
                                    while i < padding_size_in_words
                                        invariant
                                            i <= padding_size_in_words,
                                            words_view(words@) =~= zero_words(i as nat),
                                        decreases padding_size_in_words - i,
                                    {
                                        let word: [u8; 8] = [0u8; 8];
                                        let ghost before = words@;
                                        words.push(word);
                                        i += 1;
                                        proof {
                                            assert(word@ =~= zeros(8));
                                            assert(words_view(words@) =~= words_view(before).push(
                                                word@,
                                            ));
                                            assert(words_view(words@) =~= zero_words(i as nat));
                                        }
                                    }
                                    let ghost head = words@;
                                    let ghost last = tail@;
                                    words.append(&mut tail);
                                    proof {
                                        assert(words_view(words@) =~= words_view(head)
                                            + words_view(last));
                                    }
                                    Ok(words)
                                },
                                Err(fault) => Err(fault),
                            }
                        },
                    }
                },
                _ => Err(StorageFault::InternalConsistency),
            }
        },
        _ => {
            let words: Vec<[u8; 8]> = Vec::new();
            proof {
                assert(words_view(words@) =~= Seq::<Seq<u8>>::empty());
            }
            Ok(words)
        },
    }
}

} // verus!
