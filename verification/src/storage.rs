//! The storage initializers of a constant: the slots that hold it when the
//! contract is deployed, each with its key and its 32 bytes.

use crate::bytes::{
    be_bytes, be_value, lemma_be_bytes_len, lemma_be_value_leading_zeros,
    lemma_be_value_of_bytes, lemma_trim_undoes_padding, padding_len, pow256,
    trim_trailing_zeros, u64_to_be_bytes, zero_padded, zeros,
};
use crate::fault::StorageFault;
use crate::ir::{
    ir_type_size_in_bytes, round_up_to_word, Aggregate, Constant, ConstantValue, Context, Type,
};
use crate::slot_key::{add_to_b256, get_storage_key, spec_add_to_b256, spec_storage_key};
use crate::state::StateIndex;
use crate::words::{
    bool_word, serialize_to_words, spec_serialize_to_words, words_of_bytes, words_view,
    zero_words,
};
use vstd::prelude::*;
use vstd::slice::slice_to_vec;

verus! {

/// One storage slot as it is at deployment: its key and its value.
#[derive(Clone, Copy, Debug, PartialEq, Eq)]
pub struct StorageInitializer {
    pub slot: [u8; 32],
    pub value: [u8; 32],
}

/// The list of slots that initialize one storage variable.
pub type JsonStorageInitializers = Vec<StorageInitializer>;

/// A [`StorageInitializer`] as two byte strings.
pub struct SlotValue {
    pub slot: Seq<u8>,
    pub value: Seq<u8>,
}

impl View for StorageInitializer {
    type V = SlotValue;

    open spec fn view(&self) -> SlotValue {
        SlotValue { slot: self.slot@, value: self.value@ }
    }
}

/// The initializers as pairs of byte strings.
pub open spec fn initializers_view(list: Seq<StorageInitializer>) -> Seq<SlotValue> {
    list.map_values(|one: StorageInitializer| one@)
}

/// What a result of [`serialize_to_storage_initializers`] stands for.
pub open spec fn initializers_result_view(r: Result<Vec<StorageInitializer>, StorageFault>)
    -> Result<Seq<SlotValue>, StorageFault> {
    match r {
        Ok(list) => Ok(initializers_view(list@)),
        Err(fault) => Err(fault),
    }
}

/// A word as the value of a slot of its own: 24 zero bytes, then the word.
pub open spec fn padded_slot(word: Seq<u8>) -> Seq<u8> {
    zeros(24) + word
}

/// The slots that hold `words` from the key `base` on, for a value of
/// `byte_size` bytes: the words are followed by zero words up to a multiple of
/// four, slot `n` has the key `base + n` and holds words `4n` to `4n + 3`. It
/// is a fault for the words not to fill exactly the slots that `byte_size`
/// bytes take.
pub open spec fn spec_pack_slots(base: Seq<u8>, words: Seq<Seq<u8>>, byte_size: u64) -> Result<
    Seq<SlotValue>,
    StorageFault,
> {
    let padded = words + zero_words(padding_len(words.len(), 4));
    let slots = (byte_size as nat + 31) / 32;
    if padded.len() != 4 * slots {
        Err(StorageFault::InternalConsistency)
    } else {
        Ok(
            Seq::new(
                slots,
                |n: int|
                    SlotValue {
                        slot: spec_add_to_b256(base, n as u64),
                        value: padded[4 * n] + padded[4 * n + 1] + padded[4 * n + 2] + padded[4 * n
                            + 3],
                    },
            ),
        )
    }
}

/// The storage initializers of a constant `c` stored as a value of type `ty`
/// at `path` below storage variable `ix`.
///
/// An undefined constant has none, whatever the type. A unit, a boolean, an
/// integer or a `B256` has one, under the key of `path`: its word behind 24
/// zero bytes, or the 32 bytes of the `B256`. A struct has those of its
/// fields one after the other, field `i` at `path` extended by `i`, against
/// the field type that the context gives. A constant stored as a union or as
/// a string is packed: its words fill consecutive slots from the key of
/// `path` on, as [`spec_pack_slots`] says, for the size of `ty`. An array is a
/// fault. Any other pairing of type and constant has none.
pub open spec fn spec_serialize_to_storage_initializers(
    c: Constant,
    ctx: Context,
    ix: nat,
    ty: Type,
    path: Seq<usize>,
) -> Result<Seq<SlotValue>, StorageFault>
    decreases c, 2nat, 0nat,
{
    match (ty, c.value) {
        (_, ConstantValue::Undef) => Ok(Seq::empty()),
        (Type::Unit, ConstantValue::Unit) => Ok(
            seq![SlotValue { slot: spec_storage_key(ix, path), value: padded_slot(zeros(8)) }],
        ),
        (Type::Bool, ConstantValue::Bool(b)) => Ok(
            seq![SlotValue { slot: spec_storage_key(ix, path), value: padded_slot(bool_word(b)) }],
        ),
        (Type::Uint(_), ConstantValue::Uint(n)) => Ok(
            seq![
                SlotValue {
                    slot: spec_storage_key(ix, path),
                    value: padded_slot(be_bytes(n as nat, 8)),
                },
            ],
        ),
        (Type::B256, ConstantValue::B256(b)) => Ok(
            seq![SlotValue { slot: spec_storage_key(ix, path), value: b@ }],
        ),
        (Type::Array(_), ConstantValue::Array(_)) => Err(StorageFault::UnsupportedShape),
        (Type::Struct(a), ConstantValue::Struct(fields)) => match ctx.spec_field_types(a) {
            Some(tys) => spec_fields_to_storage_initializers(
                c,
                ctx,
                ix,
                tys,
                path,
                if fields.len() <= tys.len() {
                    fields.len() as nat
                } else {
                    tys.len()
                },
            ),
            None => Err(StorageFault::InternalConsistency),
        },
        (Type::Union(_), _) | (Type::String(_), _) => match spec_serialize_to_words(c, ctx, ty) {
            Ok(words) => match ctx.spec_type_size(ty) {
                Some(size) => spec_pack_slots(spec_storage_key(ix, path), words, size),
                None => Err(StorageFault::InternalConsistency),
            },
            Err(fault) => Err(fault),
        },
        _ => Ok(Seq::empty()),
    }
}

/// The storage initializers of the first `n` fields of the struct constant
/// `c`, field `i` stored as a value of type `tys[i]` at `path` extended by
/// `i`; the fault of the first field that has one.
pub open spec fn spec_fields_to_storage_initializers(
    c: Constant,
    ctx: Context,
    ix: nat,
    tys: Seq<Type>,
    path: Seq<usize>,
    n: nat,
) -> Result<Seq<SlotValue>, StorageFault>
    decreases c, 1nat, n,
{
    match c.value {
        ConstantValue::Struct(fields) => if n == 0 || n > fields.len() || n > tys.len() {
            Ok(Seq::empty())
        } else {
            match spec_fields_to_storage_initializers(c, ctx, ix, tys, path, (n - 1) as nat) {
                Ok(head) => match spec_serialize_to_storage_initializers(
                    fields[n - 1],
                    ctx,
                    ix,
                    tys[n - 1],
                    path.push((n - 1) as usize),
                ) {
                    Ok(last) => Ok(head + last),
                    Err(fault) => Err(fault),
                },
                Err(fault) => Err(fault),
            }
        },
        _ => Ok(Seq::empty()),
    }
}

/// Once a field has a fault, so has every longer run of fields.
proof fn lemma_fields_fault_stays(
    c: Constant,
    ctx: Context,
    ix: nat,
    tys: Seq<Type>,
    path: Seq<usize>,
    k: nat,
    n: nat,
)
    requires
        c.value is Struct,
        k <= n,
        n <= c.value->Struct_0.len(),
        n <= tys.len(),
        spec_fields_to_storage_initializers(c, ctx, ix, tys, path, k) is Err,
    ensures
        spec_fields_to_storage_initializers(c, ctx, ix, tys, path, n)
            == spec_fields_to_storage_initializers(c, ctx, ix, tys, path, k),
    decreases n - k,
{
    if k < n {
        lemma_fields_fault_stays(c, ctx, ix, tys, path, k, (n - 1) as nat);
    }
}

/// The value of a slot that holds one word.
fn slot_of_word(word: &[u8; 8]) -> (value: [u8; 32])
    ensures
        value@ == padded_slot(word@),
{
    let mut value: [u8; 32] = [0u8; 32];
    let mut j: usize = 0;
    while j < 8
        invariant
            j <= 8,
            forall|k: int| 0 <= k < 24 ==> value@[k] == 0u8,
            forall|k: int| 0 <= k < j ==> value@[24 + k] == word@[k],
        decreases 8 - j,
    {
        value[24 + j] = word[j];
        j += 1;
    }
    proof {
        assert(value@ =~= padded_slot(word@));
    }
    value
}

/// The list of the one initializer `slot`, `value`.
fn single(slot: [u8; 32], value: [u8; 32]) -> (list: Vec<StorageInitializer>)
    ensures
        initializers_view(list@) == seq![SlotValue { slot: slot@, value: value@ }],
{
    let mut list: Vec<StorageInitializer> = Vec::new();
    list.push(StorageInitializer { slot, value });
    proof {
        assert(initializers_view(list@) =~= seq![SlotValue { slot: slot@, value: value@ }]);
    }
    list
}

/// Spreads the words of a packed value over consecutive slots from `base` on.
pub fn pack_slots(base: &[u8; 32], words: &Vec<[u8; 8]>, byte_size: u64) -> (r: Result<
    Vec<StorageInitializer>,
    StorageFault,
>)
    ensures
        initializers_result_view(r) == spec_pack_slots(base@, words_view(words@), byte_size),
{
    let whole = words.len() / 4;
    let rest = words.len() % 4;
    let filled: usize = if rest == 0 {
        whole
    } else {
        whole + 1
    };
    let slots: u64 = if byte_size % 32 == 0 {
        byte_size / 32
    } else {
        byte_size / 32 + 1
    };
    let ghost padded = words_view(words@) + zero_words(padding_len(words@.len(), 4));
    proof {
        assert(padded.len() == 4 * filled);
        assert(slots == (byte_size as nat + 31) / 32);
    }
    if filled as u64 != slots {
        return Err(StorageFault::InternalConsistency);
    }
    let mut list: Vec<StorageInitializer> = Vec::new();
    let mut n: usize = 0;
    while n < filled
        invariant
            n <= filled,
            whole == words.len() / 4,
            rest == words.len() % 4,
            filled == if rest == 0 {
                whole
            } else {
                (whole + 1) as usize
            },
            padded == words_view(words@) + zero_words(padding_len(words@.len(), 4)),
            padded.len() == 4 * filled,
            list@.len() == n,
            forall|k: int|
                0 <= k < n ==> (#[trigger] list@[k])@ == (SlotValue {
                    slot: spec_add_to_b256(base@, k as u64),
                    value: padded[4 * k] + padded[4 * k + 1] + padded[4 * k + 2] + padded[4 * k + 3],
                }),
        decreases filled - n,
    {
        let mut value: [u8; 32] = [0u8; 32];
        let mut j: usize = 0;
        while j < 32
            invariant
                j <= 32,
                n < filled,
                whole == words.len() / 4,
                rest == words.len() % 4,
                filled == if rest == 0 {
                    whole
                } else {
                    (whole + 1) as usize
                },
                padded == words_view(words@) + zero_words(padding_len(words@.len(), 4)),
                padded.len() == 4 * filled,
                forall|t: int| 0 <= t < j ==> value@[t] == padded[4 * n + t / 8][t % 8],
            decreases 32 - j,
        {
            let k = j / 8;
            let byte: u8 = if n < whole || k < rest {
                words[4 * n + k][j % 8]
            } else {
                0u8
            };
            proof {
                let at = 4 * n + k;
                if n < whole || k < rest {
                    assert(padded[at] == words@[at]@);
                } else {
                    assert(padded[at] == zeros(8));
                }
            }
            value[j] = byte;
            j += 1;
        }
        let slot = add_to_b256(*base, n as u64);
        proof {
            let joined = padded[4 * n] + padded[4 * n + 1] + padded[4 * n + 2] + padded[4 * n + 3];
            assert forall|i: int| 0 <= i < 4 implies (#[trigger] padded[4 * n + i]).len() == 8 by {
                let at = 4 * n + i;
                if at < words@.len() {
                    assert(padded[at] == words@[at]@);
                } else {
                    assert(padded[at] == zeros(8));
                }
            }
            assert(padded[4 * n + 0].len() == 8);
            assert(padded[4 * n + 1].len() == 8);
            assert(padded[4 * n + 2].len() == 8);
            assert(padded[4 * n + 3].len() == 8);
            assert(value@ =~= joined);
        }
        list.push(StorageInitializer { slot, value });
        n += 1;
    }
    proof {
        assert(initializers_view(list@) =~= spec_pack_slots(
            base@,
            words_view(words@),
            byte_size,
        )->Ok_0);
    }
    Ok(list)
}

/// Given a constant value `constant`, a type `ty`, a state index, and a vector
/// of subfield indices, serialize the constant into a vector of storage
/// initializers. The keys (slots) are generated using the state index and the
/// subfield indices which are recursively built. The values are generated such
/// that each subfield gets its own storage slot except for enums and strings
/// which are spread over successive storage slots.
pub fn serialize_to_storage_initializers(
    constant: &Constant,
    context: &Context,
    ix: &StateIndex,
    ty: &Type,
    indices: &[usize],
) -> (r: Result<JsonStorageInitializers, StorageFault>)
    ensures
        initializers_result_view(r) == spec_serialize_to_storage_initializers(
            *constant,
            *context,
            ix@,
            *ty,
            indices@,
        ),
    decreases constant,
{
    match (ty, &constant.value) {
        (_, ConstantValue::Undef) => {
            let list: Vec<StorageInitializer> = Vec::new();
            proof {
                assert(initializers_view(list@) =~= Seq::<SlotValue>::empty());
            }
            Ok(list)
        },
        (Type::Unit, ConstantValue::Unit) => {
            let word: [u8; 8] = [0u8; 8];
            proof {
                assert(word@ =~= zeros(8));
            }
            Ok(single(get_storage_key(ix, indices), slot_of_word(&word)))
        },
        (Type::Bool, ConstantValue::Bool(b)) => {
            let mut word: [u8; 8] = [0u8; 8];
            if *b {
                word[7] = 1u8;
            }
            proof {
                assert(word@ =~= bool_word(*b));
            }
            Ok(single(get_storage_key(ix, indices), slot_of_word(&word)))
        },
        (Type::Uint(_), ConstantValue::Uint(n)) => {
            let word = u64_to_be_bytes(*n);
            Ok(single(get_storage_key(ix, indices), slot_of_word(&word)))
        },
        (Type::B256, ConstantValue::B256(b)) => Ok(single(get_storage_key(ix, indices), *b)),
        (Type::Array(_), ConstantValue::Array(_)) => Err(StorageFault::UnsupportedShape),
        (Type::Struct(a), ConstantValue::Struct(fields)) => {
            match context.field_types(a) {
                Some(tys) => {
                    let count = if fields.len() <= tys.len() {
                        fields.len()
                    } else {
                        tys.len()
                    };
                    let mut list: Vec<StorageInitializer> = Vec::new();
                    let mut i: usize = 0;
                    proof {
                        assert(initializers_view(list@) =~= Seq::<SlotValue>::empty());
                    }
                    while i < count
                        invariant
                            i <= count,
                            count == if fields.len() <= tys.len() {
                                fields.len()
                            } else {
                                tys.len()
                            },
                            *ty == Type::Struct(*a),
                            context.spec_field_types(*a) == Some(tys@),
                            constant.value == ConstantValue::Struct(*fields),
                            spec_fields_to_storage_initializers(
                                *constant,
                                *context,
                                ix@,
                                tys@,
                                indices@,
                                i as nat,
                            ) == Ok::<Seq<SlotValue>, StorageFault>(initializers_view(list@)),
                        decreases count - i,
                    {
                        let mut field_path = slice_to_vec(indices);
                        field_path.push(i);
                        match serialize_to_storage_initializers(
                            &fields[i],
                            context,
                            ix,
                            &tys[i],
                            field_path.as_slice(),
                        ) {
                            Ok(mut field_list) => {
                                let ghost head = list@;
                                let ghost last = field_list@;
                                list.append(&mut field_list);
                                proof {
                                    assert(initializers_view(list@) =~= initializers_view(head)
                                        + initializers_view(last));
                                }
                            },
                            Err(fault) => {
                                proof {
                                    assert(spec_fields_to_storage_initializers(
                                        *constant,
                                        *context,
                                        ix@,
                                        tys@,
                                        indices@,
                                        (i + 1) as nat,
                                    ) == Err::<Seq<SlotValue>, StorageFault>(fault));
                                    lemma_fields_fault_stays(
                                        *constant,
                                        *context,
                                        ix@,
                                        tys@,
                                        indices@,
                                        (i + 1) as nat,
                                        count as nat,
                                    );
                                }
                                return Err(fault);
                            },
                        }
                        i += 1;
                    }
                    Ok(list)
                },
                None => Err(StorageFault::InternalConsistency),
            }
        },
        (Type::Union(_), _) | (Type::String(_), _) => {
            // Serialize the constant data in words, then spread the words over
            // the slots that the type takes, four words to a slot.
            match serialize_to_words(constant, context, ty) {
                Ok(packed) => match ir_type_size_in_bytes(context, ty) {
                    Some(size) => pack_slots(&get_storage_key(ix, indices), &packed, size),
                    None => Err(StorageFault::InternalConsistency),
                },
                Err(fault) => Err(fault),
            }
        },
        _ => {
            let list: Vec<StorageInitializer> = Vec::new();
            proof {
                assert(initializers_view(list@) =~= Seq::<SlotValue>::empty());
            }
            Ok(list)
        },
    }
}

/// The values of a list of slots, one after the other.
pub open spec fn joined_values(list: Seq<SlotValue>) -> Seq<u8> {
    Seq::new(32 * list.len(), |k: int| list[k / 32].value[k % 32])
}

/// A boolean takes one slot, under the key of its path: all zero but for the
/// last byte, which is 1 for `true` and 0 for `false`.
pub proof fn lemma_bool_initializer(c: Constant, ctx: Context, ix: nat, path: Seq<usize>, b: bool)
    requires
        c.value == ConstantValue::Bool(b),
    ensures
        spec_serialize_to_storage_initializers(c, ctx, ix, Type::Bool, path) == Ok::<
            Seq<SlotValue>,
            StorageFault,
        >(
            seq![
                SlotValue {
                    slot: spec_storage_key(ix, path),
                    value: zeros(31).push(if b { 1u8 } else { 0u8 }),
                },
            ],
        ),
        zeros(31).push(0u8) == zeros(32),
{
    assert(padded_slot(bool_word(b)) =~= zeros(31).push(if b { 1u8 } else { 0u8 }));
    assert(zeros(31).push(0u8) =~= zeros(32));
}

/// An unsigned integer takes one slot, under the key of its path: 24 zero
/// bytes, then the integer in 8 bytes, most significant first. Read as one
/// big-endian number, the last 8 bytes and the whole slot both spell the
/// integer.
pub proof fn lemma_uint_initializer(
    c: Constant,
    ctx: Context,
    ix: nat,
    path: Seq<usize>,
    width: u8,
    n: u64,
)
    requires
        c.value == ConstantValue::Uint(n),
    ensures
        spec_serialize_to_storage_initializers(c, ctx, ix, Type::Uint(width), path) == Ok::<
            Seq<SlotValue>,
            StorageFault,
        >(
            seq![
                SlotValue {
                    slot: spec_storage_key(ix, path),
                    value: zeros(24) + be_bytes(n as nat, 8),
                },
            ],
        ),
        be_bytes(n as nat, 8).len() == 8,
        be_value(be_bytes(n as nat, 8)) == n,
        be_value(zeros(24) + be_bytes(n as nat, 8)) == n,
{
    lemma_be_bytes_len(n as nat, 8);
    lemma_be_value_of_bytes(n as nat, 8);
    reveal_with_fuel(pow256, 9);
    assert(pow256(8) == 0x1_0000_0000_0000_0000);
    lemma_be_value_leading_zeros(24, be_bytes(n as nat, 8));
}

/// A struct of a boolean and an integer, stored at the empty path, takes two
/// slots: the boolean under the key of path `[0]`, the integer under the key
/// of path `[1]`.
pub proof fn lemma_struct_of_bool_and_uint(
    c: Constant,
    ctx: Context,
    ix: nat,
    a: Aggregate,
    width: u8,
    b: bool,
    n: u64,
)
    requires
        ctx.spec_field_types(a) == Some(seq![Type::Bool, Type::Uint(width)]),
        c.value is Struct,
        c.value->Struct_0.len() == 2,
        c.value->Struct_0[0].value == ConstantValue::Bool(b),
        c.value->Struct_0[1].value == ConstantValue::Uint(n),
    ensures
        spec_serialize_to_storage_initializers(c, ctx, ix, Type::Struct(a), Seq::empty()) == Ok::<
            Seq<SlotValue>,
            StorageFault,
        >(
            seq![
                SlotValue {
                    slot: spec_storage_key(ix, seq![0usize]),
                    value: padded_slot(bool_word(b)),
                },
                SlotValue {
                    slot: spec_storage_key(ix, seq![1usize]),
                    value: padded_slot(be_bytes(n as nat, 8)),
                },
            ],
        ),
{
    let tys = seq![Type::Bool, Type::Uint(width)];
    let root = Seq::<usize>::empty();
    let fields = c.value->Struct_0;
    assert(root.push(0usize) =~= seq![0usize]);
    assert(root.push(1usize) =~= seq![1usize]);
    let none = spec_fields_to_storage_initializers(c, ctx, ix, tys, root, 0);
    let one = spec_fields_to_storage_initializers(c, ctx, ix, tys, root, 1);
    let two = spec_fields_to_storage_initializers(c, ctx, ix, tys, root, 2);
    assert(none == Ok::<Seq<SlotValue>, StorageFault>(Seq::empty()));
    let first = seq![
        SlotValue { slot: spec_storage_key(ix, seq![0usize]), value: padded_slot(bool_word(b)) },
    ];
    let second = seq![
        SlotValue {
            slot: spec_storage_key(ix, seq![1usize]),
            value: padded_slot(be_bytes(n as nat, 8)),
        },
    ];
    assert(spec_serialize_to_storage_initializers(fields[0], ctx, ix, tys[0], root.push(0usize))
        == Ok::<Seq<SlotValue>, StorageFault>(first));
    assert(spec_serialize_to_storage_initializers(fields[1], ctx, ix, tys[1], root.push(1usize))
        == Ok::<Seq<SlotValue>, StorageFault>(second));
    assert(Seq::<SlotValue>::empty() + first =~= first);
    assert(one == Ok::<Seq<SlotValue>, StorageFault>(first));
    assert(two == Ok::<Seq<SlotValue>, StorageFault>(first + second));
    assert(first + second =~= seq![first[0], second[0]]);
}

/// A string of `len` bytes, stored as a string type that takes as many slots,
/// is spread over `ceil(len / 32)` slots with consecutive keys from the key
/// of its path on. Their values, one after the other, are the string
/// followed by zero bytes up to a multiple of 32; trimming the zero bytes at
/// the end gives the string back, unless the string itself ends in a zero
/// byte.
pub proof fn lemma_string_round_trip(
    c: Constant,
    ctx: Context,
    ix: nat,
    path: Seq<usize>,
    capacity: u64,
    s: Seq<u8>,
)
    requires
        c.value is String,
        c.value->String_0@ == s,
        capacity + 7 <= u64::MAX,
        (capacity + 31) / 32 == (s.len() + 31) / 32,
    ensures
        spec_serialize_to_storage_initializers(c, ctx, ix, Type::String(capacity), path) is Ok,
        ({
            let list = spec_serialize_to_storage_initializers(
                c,
                ctx,
                ix,
                Type::String(capacity),
                path,
            )->Ok_0;
            &&& list.len() == (s.len() + 31) / 32
            &&& forall|n: int|
                0 <= n < list.len() ==> (#[trigger] list[n]).slot == spec_add_to_b256(
                    spec_storage_key(ix, path),
                    n as u64,
                )
            &&& joined_values(list) == zero_padded(s, 32)
            &&& (s.len() == 0 || s.last() != 0u8) ==> trim_trailing_zeros(joined_values(list)) == s
        }),
{
    let ty = Type::String(capacity);
    let text = zero_padded(s, 32);
    let words = words_of_bytes(text);
    let count = (s.len() + 31) / 32;
    assert(text.len() == 32 * count);
    assert(words.len() == 4 * count);
    assert(spec_serialize_to_words(c, ctx, ty) == Ok::<Seq<Seq<u8>>, StorageFault>(words));
    let size = round_up_to_word(capacity as nat);
    assert(ctx.spec_type_size(ty) == Some(size as u64));
    assert((size + 31) / 32 == count);
    let base = spec_storage_key(ix, path);
    let padded = words + zero_words(padding_len(words.len(), 4));
    assert(padded =~= words);
    let packed = spec_pack_slots(base, words, size as u64);
    assert(packed is Ok);
    let list = packed->Ok_0;
    assert(list.len() == count);
    assert forall|n: int| 0 <= n < count implies (#[trigger] list[n]).value == text.subrange(
        32 * n,
        32 * n + 32,
    ) by {
        assert(words[4 * n] == text.subrange(8 * (4 * n), 8 * (4 * n) + 8));
        assert(words[4 * n + 1] == text.subrange(8 * (4 * n + 1), 8 * (4 * n + 1) + 8));
        assert(words[4 * n + 2] == text.subrange(8 * (4 * n + 2), 8 * (4 * n + 2) + 8));
        assert(words[4 * n + 3] == text.subrange(8 * (4 * n + 3), 8 * (4 * n + 3) + 8));
        assert(words[4 * n] + words[4 * n + 1] + words[4 * n + 2] + words[4 * n + 3]
            =~= text.subrange(32 * n, 32 * n + 32));
    }
    assert(joined_values(list) =~= text) by {
        assert forall|k: int| 0 <= k < 32 * count implies joined_values(list)[k] == text[k] by {
            let n = k / 32;
            assert(list[n].value == text.subrange(32 * n, 32 * n + 32));
        }
    }
    if s.len() == 0 || s.last() != 0u8 {
        lemma_trim_undoes_padding(s, padding_len(s.len(), 32));
    }
}

/// An undefined constant has no words and takes no slot, whatever the type.
pub proof fn lemma_undefined_is_empty(c: Constant, ctx: Context, ix: nat, ty: Type, path: Seq<usize>)
    requires
        c.value is Undef,
    ensures
        spec_serialize_to_words(c, ctx, ty) == Ok::<Seq<Seq<u8>>, StorageFault>(Seq::empty()),
        spec_serialize_to_storage_initializers(c, ctx, ix, ty, path) == Ok::<
            Seq<SlotValue>,
            StorageFault,
        >(Seq::empty()),
{
}

/// An array constant stored as an array is never encoded: both encoders give
/// it up as an unsupported shape.
pub proof fn lemma_array_is_unsupported(
    c: Constant,
    ctx: Context,
    ix: nat,
    ty: Type,
    path: Seq<usize>,
)
    requires
        c.value is Array,
        ty is Array,
    ensures
        spec_serialize_to_words(c, ctx, ty) == Err::<Seq<Seq<u8>>, StorageFault>(
            StorageFault::UnsupportedShape,
        ),
        spec_serialize_to_storage_initializers(c, ctx, ix, ty, path) == Err::<
            Seq<SlotValue>,
            StorageFault,
        >(StorageFault::UnsupportedShape),
{
}

} // verus!
