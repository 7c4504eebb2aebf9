use sway_tools::fault::StorageFault;
use sway_tools::ir::{Aggregate, AggregateContent, Constant, ConstantValue, Context, Type};
use sway_tools::words::serialize_to_words;

fn empty_context() -> Context {
    Context { aggregates: vec![] }
}

fn typed(ty: Type, value: ConstantValue) -> Constant {
    Constant { ty, value }
}

const ZERO: [u8; 8] = [0u8; 8];

#[test]
fn words_of_unit() {
    let c = typed(Type::Unit, ConstantValue::Unit);
    assert_eq!(serialize_to_words(&c, &empty_context(), &Type::Unit), Ok(vec![ZERO]));
}

#[test]
fn words_of_bool() {
    let ctx = empty_context();
    let yes = typed(Type::Bool, ConstantValue::Bool(true));
    let no = typed(Type::Bool, ConstantValue::Bool(false));
    assert_eq!(serialize_to_words(&yes, &ctx, &Type::Bool), Ok(vec![[0, 0, 0, 0, 0, 0, 0, 1]]));
    assert_eq!(serialize_to_words(&no, &ctx, &Type::Bool), Ok(vec![ZERO]));
}

#[test]
fn words_of_uint() {
    let ctx = empty_context();
    let c = typed(Type::Uint(64), ConstantValue::Uint(0x1122334455667788));
    assert_eq!(
        serialize_to_words(&c, &ctx, &Type::Uint(64)),
        Ok(vec![[0x11, 0x22, 0x33, 0x44, 0x55, 0x66, 0x77, 0x88]])
    );
    let small = typed(Type::Uint(8), ConstantValue::Uint(200));
    assert_eq!(
        serialize_to_words(&small, &ctx, &Type::Uint(8)),
        Ok(vec![[0, 0, 0, 0, 0, 0, 0, 200]])
    );
}

#[test]
fn words_of_b256() {
    let mut bytes = [0u8; 32];
    for (i, b) in bytes.iter_mut().enumerate() {
        *b = i as u8 + 1;
    }
    let c = typed(Type::B256, ConstantValue::B256(bytes));
    assert_eq!(
        serialize_to_words(&c, &empty_context(), &Type::B256),
        Ok(vec![
            [1, 2, 3, 4, 5, 6, 7, 8],
            [9, 10, 11, 12, 13, 14, 15, 16],
            [17, 18, 19, 20, 21, 22, 23, 24],
            [25, 26, 27, 28, 29, 30, 31, 32],
        ])
    );
}

#[test]
fn words_of_short_string() {
    let c = typed(Type::String(5), ConstantValue::String(b"hello".to_vec()));
    assert_eq!(
        serialize_to_words(&c, &empty_context(), &Type::String(5)),
        Ok(vec![[b'h', b'e', b'l', b'l', b'o', 0, 0, 0], ZERO, ZERO, ZERO])
    );
}

#[test]
fn words_of_empty_string() {
    let c = typed(Type::String(0), ConstantValue::String(vec![]));
    assert_eq!(serialize_to_words(&c, &empty_context(), &Type::String(0)), Ok(vec![]));
}

#[test]
fn words_of_string_of_one_slot() {
    let text: Vec<u8> = (1..=32u8).collect();
    let c = typed(Type::String(32), ConstantValue::String(text));
    let words = serialize_to_words(&c, &empty_context(), &Type::String(32)).unwrap();
    assert_eq!(words.len(), 4);
    assert_eq!(words[3], [25, 26, 27, 28, 29, 30, 31, 32]);
}

#[test]
fn words_of_string_past_one_slot() {
    let text: Vec<u8> = (1..=33u8).collect();
    let c = typed(Type::String(33), ConstantValue::String(text));
    let words = serialize_to_words(&c, &empty_context(), &Type::String(33)).unwrap();
    assert_eq!(words.len(), 8);
    assert_eq!(words[0], [1, 2, 3, 4, 5, 6, 7, 8]);
    assert_eq!(words[4], [33, 0, 0, 0, 0, 0, 0, 0]);
    assert_eq!(words[5], ZERO);
    assert_eq!(words[7], ZERO);
}

#[test]
fn words_of_undefined_are_none() {
    let ctx = Context { aggregates: vec![AggregateContent::ArrayType(Type::Bool, 2)] };
    for ty in [
        Type::Unit,
        Type::Bool,
        Type::Uint(64),
        Type::B256,
        Type::String(9),
        Type::Array(Aggregate(0)),
        Type::Struct(Aggregate(5)),
        Type::Union(Aggregate(5)),
    ] {
        let c = typed(ty, ConstantValue::Undef);
        assert_eq!(serialize_to_words(&c, &ctx, &ty), Ok(vec![]));
    }
}

#[test]
fn words_of_array_are_a_fault() {
    let ctx = Context { aggregates: vec![AggregateContent::ArrayType(Type::Bool, 2)] };
    let ty = Type::Array(Aggregate(0));
    let c = typed(
        ty,
        ConstantValue::Array(vec![
            typed(Type::Bool, ConstantValue::Bool(true)),
            typed(Type::Bool, ConstantValue::Bool(false)),
        ]),
    );
    assert_eq!(serialize_to_words(&c, &ctx, &ty), Err(StorageFault::UnsupportedShape));
    let empty = typed(ty, ConstantValue::Array(vec![]));
    assert_eq!(serialize_to_words(&empty, &ctx, &ty), Err(StorageFault::UnsupportedShape));
}

#[test]
fn words_of_struct_follow_field_order() {
    let ctx = Context {
        aggregates: vec![AggregateContent::FieldTypes(vec![Type::Uint(64), Type::Bool, Type::Unit])],
    };
    let ty = Type::Struct(Aggregate(0));
    let c = typed(
        ty,
        ConstantValue::Struct(vec![
            typed(Type::Uint(64), ConstantValue::Uint(258)),
            typed(Type::Bool, ConstantValue::Bool(true)),
            typed(Type::Unit, ConstantValue::Unit),
        ]),
    );
    assert_eq!(
        serialize_to_words(&c, &ctx, &ty),
        Ok(vec![[0, 0, 0, 0, 0, 0, 1, 2], [0, 0, 0, 0, 0, 0, 0, 1], ZERO])
    );
}

#[test]
fn words_of_nested_struct() {
    let ctx = Context {
        aggregates: vec![
            AggregateContent::FieldTypes(vec![Type::Bool, Type::Uint(64)]),
            AggregateContent::FieldTypes(vec![Type::Struct(Aggregate(0)), Type::Uint(64)]),
        ],
    };
    let inner = typed(
        Type::Struct(Aggregate(0)),
        ConstantValue::Struct(vec![
            typed(Type::Bool, ConstantValue::Bool(true)),
            typed(Type::Uint(64), ConstantValue::Uint(2)),
        ]),
    );
    let outer = typed(
        Type::Struct(Aggregate(1)),
        ConstantValue::Struct(vec![inner, typed(Type::Uint(64), ConstantValue::Uint(3))]),
    );
    assert_eq!(
        serialize_to_words(&outer, &ctx, &Type::Struct(Aggregate(1))),
        Ok(vec![
            [0, 0, 0, 0, 0, 0, 0, 1],
            [0, 0, 0, 0, 0, 0, 0, 2],
            [0, 0, 0, 0, 0, 0, 0, 3],
        ])
    );
}

#[test]
fn words_of_struct_stop_at_the_shorter_list() {
    let ctx = Context {
        aggregates: vec![AggregateContent::FieldTypes(vec![Type::Uint(64), Type::Bool])],
    };
    let ty = Type::Struct(Aggregate(0));
    let short = typed(
        ty,
        ConstantValue::Struct(vec![typed(Type::Uint(64), ConstantValue::Uint(1))]),
    );
    assert_eq!(serialize_to_words(&short, &ctx, &ty), Ok(vec![[0, 0, 0, 0, 0, 0, 0, 1]]));
    let long = typed(
        ty,
        ConstantValue::Struct(vec![
            typed(Type::Uint(64), ConstantValue::Uint(1)),
            typed(Type::Bool, ConstantValue::Bool(true)),
            typed(Type::Bool, ConstantValue::Bool(true)),
        ]),
    );
    assert_eq!(
        serialize_to_words(&long, &ctx, &ty),
        Ok(vec![[0, 0, 0, 0, 0, 0, 0, 1], [0, 0, 0, 0, 0, 0, 0, 1]])
    );
}

#[test]
fn words_of_struct_with_an_array_field_are_a_fault() {
    let ctx = Context {
        aggregates: vec![
            AggregateContent::ArrayType(Type::Bool, 1),
            AggregateContent::FieldTypes(vec![Type::Bool, Type::Array(Aggregate(0))]),
        ],
    };
    let ty = Type::Struct(Aggregate(1));
    let c = typed(
        ty,
        ConstantValue::Struct(vec![
            typed(Type::Bool, ConstantValue::Bool(true)),
            typed(Type::Array(Aggregate(0)), ConstantValue::Array(vec![])),
        ]),
    );
    assert_eq!(serialize_to_words(&c, &ctx, &ty), Err(StorageFault::UnsupportedShape));
}

#[test]
fn words_of_struct_without_field_types_are_a_fault() {
    let ctx = Context { aggregates: vec![AggregateContent::ArrayType(Type::Bool, 1)] };
    let c = typed(Type::Struct(Aggregate(0)), ConstantValue::Struct(vec![]));
    assert_eq!(
        serialize_to_words(&c, &ctx, &Type::Struct(Aggregate(0))),
        Err(StorageFault::InternalConsistency)
    );
    assert_eq!(
        serialize_to_words(&c, &ctx, &Type::Struct(Aggregate(3))),
        Err(StorageFault::InternalConsistency)
    );
}

#[test]
fn words_of_union_are_left_padded() {
    let ctx = Context {
        aggregates: vec![AggregateContent::FieldTypes(vec![Type::Bool, Type::B256, Type::Uint(64)])],
    };
    let ty = Type::Union(Aggregate(0));
    let c = typed(Type::Uint(64), ConstantValue::Uint(7));
    assert_eq!(
        serialize_to_words(&c, &ctx, &ty),
        Ok(vec![ZERO, ZERO, ZERO, [0, 0, 0, 0, 0, 0, 0, 7]])
    );
    let whole = typed(Type::B256, ConstantValue::B256([9u8; 32]));
    assert_eq!(serialize_to_words(&whole, &ctx, &ty), Ok(vec![[9u8; 8]; 4]));
}

#[test]
fn words_of_union_with_a_struct_variant() {
    let ctx = Context {
        aggregates: vec![
            AggregateContent::FieldTypes(vec![Type::Bool, Type::Uint(64)]),
            AggregateContent::FieldTypes(vec![Type::Struct(Aggregate(0)), Type::B256]),
        ],
    };
    let payload = typed(
        Type::Struct(Aggregate(0)),
        ConstantValue::Struct(vec![
            typed(Type::Bool, ConstantValue::Bool(true)),
            typed(Type::Uint(64), ConstantValue::Uint(5)),
        ]),
    );
    assert_eq!(
        serialize_to_words(&payload, &ctx, &Type::Union(Aggregate(1))),
        Ok(vec![ZERO, ZERO, [0, 0, 0, 0, 0, 0, 0, 1], [0, 0, 0, 0, 0, 0, 0, 5]])
    );
}

#[test]
fn union_smaller_than_its_payload_is_a_fault() {
    let ctx = Context { aggregates: vec![AggregateContent::FieldTypes(vec![Type::Bool])] };
    let c = typed(Type::B256, ConstantValue::B256([1u8; 32]));
    assert_eq!(
        serialize_to_words(&c, &ctx, &Type::Union(Aggregate(0))),
        Err(StorageFault::InternalConsistency)
    );
}

#[test]
fn union_typed_payload_is_a_fault() {
    let ctx = Context { aggregates: vec![AggregateContent::FieldTypes(vec![Type::Bool])] };
    let c = typed(Type::Union(Aggregate(0)), ConstantValue::Bool(true));
    assert_eq!(
        serialize_to_words(&c, &ctx, &Type::Union(Aggregate(0))),
        Err(StorageFault::InternalConsistency)
    );
}

#[test]
fn union_without_a_size_is_a_fault() {
    let ctx = empty_context();
    let c = typed(Type::Bool, ConstantValue::Bool(true));
    assert_eq!(
        serialize_to_words(&c, &ctx, &Type::Union(Aggregate(0))),
        Err(StorageFault::InternalConsistency)
    );
    let ctx = Context { aggregates: vec![AggregateContent::FieldTypes(vec![Type::B256])] };
    let lost = typed(Type::Struct(Aggregate(4)), ConstantValue::Struct(vec![]));
    assert_eq!(
        serialize_to_words(&lost, &ctx, &Type::Union(Aggregate(0))),
        Err(StorageFault::InternalConsistency)
    );
}

#[test]
fn union_with_an_array_payload_is_unsupported() {
    let ctx = Context {
        aggregates: vec![
            AggregateContent::ArrayType(Type::Bool, 2),
            AggregateContent::FieldTypes(vec![Type::Array(Aggregate(0)), Type::B256]),
        ],
    };
    let c = typed(Type::Array(Aggregate(0)), ConstantValue::Array(vec![]));
    assert_eq!(
        serialize_to_words(&c, &ctx, &Type::Union(Aggregate(1))),
        Err(StorageFault::UnsupportedShape)
    );
}

#[test]
fn mismatched_type_and_constant_have_no_words() {
    let ctx = Context { aggregates: vec![AggregateContent::ArrayType(Type::Bool, 2)] };
    let c = typed(Type::Uint(64), ConstantValue::Uint(1));
    assert_eq!(serialize_to_words(&c, &ctx, &Type::Bool), Ok(vec![]));
    assert_eq!(serialize_to_words(&c, &ctx, &Type::Unit), Ok(vec![]));
    assert_eq!(serialize_to_words(&c, &ctx, &Type::B256), Ok(vec![]));
    assert_eq!(serialize_to_words(&c, &ctx, &Type::String(8)), Ok(vec![]));
    assert_eq!(serialize_to_words(&c, &ctx, &Type::Array(Aggregate(0))), Ok(vec![]));
    assert_eq!(serialize_to_words(&c, &ctx, &Type::Struct(Aggregate(0))), Ok(vec![]));
    let b = typed(Type::Bool, ConstantValue::Bool(true));
    assert_eq!(serialize_to_words(&b, &ctx, &Type::Uint(64)), Ok(vec![]));
}
