//! The typed constants that reach the storage encoder: types, the arena of
//! aggregate types that they refer to, constants, and the size of a type.

use vstd::prelude::*;

verus! {

/// The handle of an aggregate type: its position in a [`Context`].
#[derive(Clone, Copy, Debug, PartialEq, Eq, Structural)]
pub struct Aggregate(pub usize);

/// The shape of a value.
#[derive(Clone, Copy, Debug, PartialEq, Eq, Structural)]
pub enum Type {
    Unit,
    Bool,
    /// An unsigned integer of the given width in bits, at most 64.
    Uint(u8),
    B256,
    /// A string of the given length in bytes.
    String(u64),
    Array(Aggregate),
    Union(Aggregate),
    Struct(Aggregate),
}

/// What an aggregate handle stands for.
#[derive(Debug, PartialEq, Eq)]
pub enum AggregateContent {
    /// An array: the element type and the number of elements.
    ArrayType(Type, u64),
    /// A struct or a union: the types of the fields or variants, in order.
    FieldTypes(Vec<Type>),
}

/// The arena of aggregate types. Aggregates are numbered in the order in
/// which they were added, and a type inside one refers only to aggregates
/// added before it.
#[derive(Debug, PartialEq, Eq)]
pub struct Context {
    pub aggregates: Vec<AggregateContent>,
}

/// A typed literal.
#[derive(Debug, PartialEq, Eq)]
pub struct Constant {
    pub ty: Type,
    pub value: ConstantValue,
}

/// The payload of a [`Constant`].
#[derive(Debug, PartialEq, Eq)]
pub enum ConstantValue {
    Undef,
    Unit,
    Bool(bool),
    Uint(u64),
    B256([u8; 32]),
    String(Vec<u8>),
    Array(Vec<Constant>),
    Struct(Vec<Constant>),
}

/// `n`, where it fits in 64 bits.
pub open spec fn fits_u64(n: nat) -> Option<u64> {
    if n <= u64::MAX {
        Some(n as u64)
    } else {
        None
    }
}

/// `n` rounded up to a whole number of 8-byte words.
pub open spec fn round_up_to_word(n: nat) -> nat {
    (n + 7) / 8 * 8
}

/// The size in bytes of `ty`, where it refers only to aggregates below
/// `bound`: 8 for a unit, a boolean or an integer, 32 for a `B256`, a string's
/// length rounded up to whole words, an array's element size times its count,
/// the sum of a struct's fields, the largest of a union's variants. `None`
/// where a handle is not below `bound`, stands for the wrong kind of
/// aggregate, or a size on the way does not fit in 64 bits.
pub open spec fn size_below(aggregates: Seq<AggregateContent>, ty: Type, bound: nat) -> Option<u64>
    decreases bound, 0nat,
{
    match ty {
        Type::Unit | Type::Bool | Type::Uint(_) => Some(8u64),
        Type::B256 => Some(32u64),
        Type::String(len) => fits_u64(round_up_to_word(len as nat)),
        Type::Array(a) => if a.0 < bound && a.0 < aggregates.len() {
            match aggregates[a.0 as int] {
                AggregateContent::ArrayType(element, count) => match size_below(
                    aggregates,
                    element,
                    a.0 as nat,
                ) {
                    Some(size) => fits_u64(count as nat * size as nat),
                    None => None,
                },
                AggregateContent::FieldTypes(_) => None,
            }
        } else {
            None
        },
        Type::Struct(a) => if a.0 < bound && a.0 < aggregates.len() {
            match aggregates[a.0 as int] {
                AggregateContent::FieldTypes(fields) => sum_below(aggregates, fields@, a.0 as nat),
                AggregateContent::ArrayType(_, _) => None,
            }
        } else {
            None
        },
        Type::Union(a) => if a.0 < bound && a.0 < aggregates.len() {
            match aggregates[a.0 as int] {
                AggregateContent::FieldTypes(fields) => max_below(aggregates, fields@, a.0 as nat),
                AggregateContent::ArrayType(_, _) => None,
            }
        } else {
            None
        },
    }
}

/// The sum of the sizes of `fields`, each taken by [`size_below`].
pub open spec fn sum_below(aggregates: Seq<AggregateContent>, fields: Seq<Type>, bound: nat)
    -> Option<u64>
    decreases bound, 1 + fields.len(),
{
    if fields.len() == 0 {
        Some(0u64)
    } else {
        match (
            sum_below(aggregates, fields.drop_last(), bound),
            size_below(aggregates, fields.last(), bound),
        ) {
            (Some(head), Some(last)) => fits_u64(head as nat + last as nat),
            _ => None,
        }
    }
}

/// The largest of the sizes of `fields`, each taken by [`size_below`]; 0 where
/// there is no field.
pub open spec fn max_below(aggregates: Seq<AggregateContent>, fields: Seq<Type>, bound: nat)
    -> Option<u64>
    decreases bound, 1 + fields.len(),
{
    if fields.len() == 0 {
        Some(0u64)
    } else {
        match (
            max_below(aggregates, fields.drop_last(), bound),
            size_below(aggregates, fields.last(), bound),
        ) {
            (Some(head), Some(last)) => Some(if head >= last { head } else { last }),
            _ => None,
        }
    }
}

impl Context {
    /// A context without aggregates.
    pub fn new() -> (context: Context)
        ensures
            context.aggregates@.len() == 0,
    {
        Context { aggregates: Vec::new() }
    }

    /// The size in bytes of a value of type `ty`, where it has one.
    pub open spec fn spec_type_size(&self, ty: Type) -> Option<u64> {
        size_below(self.aggregates@, ty, self.aggregates@.len())
    }

    /// The field types behind the handle of a struct or union.
    pub open spec fn spec_field_types(&self, a: Aggregate) -> Option<Seq<Type>> {
        if a.0 < self.aggregates@.len() {
            match self.aggregates@[a.0 as int] {
                AggregateContent::FieldTypes(fields) => Some(fields@),
                AggregateContent::ArrayType(_, _) => None,
            }
        } else {
            None
        }
    }

    /// Looks up the field types of a struct or union.
    pub fn field_types(&self, a: &Aggregate) -> (fields: Option<&Vec<Type>>)
        ensures
            match fields {
                Some(found) => self.spec_field_types(*a) == Some(found@),
                None => self.spec_field_types(*a) is None,
            },
    {
        if a.0 < self.aggregates.len() {
            match &self.aggregates[a.0] {
                AggregateContent::FieldTypes(fields) => Some(fields),
                AggregateContent::ArrayType(_, _) => None,
            }
        } else {
            None
        }
    }
}

impl Aggregate {
    /// Adds a struct or a union with the given field types to the context and
    /// hands out its handle.
    pub fn new_struct(context: &mut Context, field_types: Vec<Type>) -> (aggregate: Aggregate)
        ensures
            aggregate.0 == old(context).aggregates@.len(),
            final(context).aggregates@ == old(context).aggregates@.push(
                AggregateContent::FieldTypes(field_types),
            ),
    {
        let index = context.aggregates.len();
        context.aggregates.push(AggregateContent::FieldTypes(field_types));
        Aggregate(index)
    }

    /// Adds an array of `count` elements of type `element_type` to the
    /// context and hands out its handle.
    pub fn new_array(context: &mut Context, element_type: Type, count: u64) -> (aggregate: Aggregate)
        ensures
            aggregate.0 == old(context).aggregates@.len(),
            final(context).aggregates@ == old(context).aggregates@.push(
                AggregateContent::ArrayType(element_type, count),
            ),
    {
        let index = context.aggregates.len();
        context.aggregates.push(AggregateContent::ArrayType(element_type, count));
        Aggregate(index)
    }
}

impl Constant {
    /// The undefined constant of type `ty`.
    pub fn new_undef(ty: Type) -> (constant: Constant)
        ensures
            constant == (Constant { ty, value: ConstantValue::Undef }),
    {
        Constant { ty, value: ConstantValue::Undef }
    }

    /// The unit constant.
    pub fn new_unit() -> (constant: Constant)
        ensures
            constant == (Constant { ty: Type::Unit, value: ConstantValue::Unit }),
    {
        Constant { ty: Type::Unit, value: ConstantValue::Unit }
    }

    /// The boolean constant `b`.
    pub fn new_bool(b: bool) -> (constant: Constant)
        ensures
            constant == (Constant { ty: Type::Bool, value: ConstantValue::Bool(b) }),
    {
        Constant { ty: Type::Bool, value: ConstantValue::Bool(b) }
    }

    /// The integer constant `n` of `nbits` bits.
    pub fn new_uint(nbits: u8, n: u64) -> (constant: Constant)
        ensures
            constant == (Constant { ty: Type::Uint(nbits), value: ConstantValue::Uint(n) }),
    {
        Constant { ty: Type::Uint(nbits), value: ConstantValue::Uint(n) }
    }

    /// The `B256` constant of the given bytes.
    pub fn new_b256(bytes: [u8; 32]) -> (constant: Constant)
        ensures
            constant == (Constant { ty: Type::B256, value: ConstantValue::B256(bytes) }),
    {
        Constant { ty: Type::B256, value: ConstantValue::B256(bytes) }
    }

    /// The string constant of the given bytes; its type is a string of their
    /// number.
    pub fn new_string(string: Vec<u8>) -> (constant: Constant)
        ensures
            constant == (Constant {
                ty: Type::String(string@.len() as u64),
                value: ConstantValue::String(string),
            }),
    {
        Constant { ty: Type::String(string.len() as u64), value: ConstantValue::String(string) }
    }

    /// The array constant of the given elements.
    pub fn new_array(aggregate: &Aggregate, elems: Vec<Constant>) -> (constant: Constant)
        ensures
            constant == (Constant {
                ty: Type::Array(*aggregate),
                value: ConstantValue::Array(elems),
            }),
    {
        Constant { ty: Type::Array(*aggregate), value: ConstantValue::Array(elems) }
    }

    /// The struct constant of the given fields.
    pub fn new_struct(aggregate: &Aggregate, fields: Vec<Constant>) -> (constant: Constant)
        ensures
            constant == (Constant {
                ty: Type::Struct(*aggregate),
                value: ConstantValue::Struct(fields),
            }),
    {
        Constant { ty: Type::Struct(*aggregate), value: ConstantValue::Struct(fields) }
    }
}

fn size_below_bound(context: &Context, ty: &Type, bound: usize) -> (size: Option<u64>)
    ensures
        size == size_below(context.aggregates@, *ty, bound as nat),
    decreases bound,
{
    match ty {
        Type::Unit | Type::Bool | Type::Uint(_) => Some(8),
        Type::B256 => Some(32),
        Type::String(len) => {
            if *len > u64::MAX - 7 {
                None
            } else {
                Some((*len + 7) / 8 * 8)
            }
        },
        Type::Array(a) => {
            if a.0 < bound && a.0 < context.aggregates.len() {
                match &context.aggregates[a.0] {
                    AggregateContent::ArrayType(element, count) => {
                        match size_below_bound(context, element, a.0) {
                            Some(size) => count.checked_mul(size),
                            None => None,
                        }
                    },
                    AggregateContent::FieldTypes(_) => None,
                }
            } else {
                None
            }
        },
        Type::Struct(a) => {
            if a.0 < bound && a.0 < context.aggregates.len() {
                match &context.aggregates[a.0] {
                    AggregateContent::FieldTypes(fields) => {
                        let mut total: Option<u64> = Some(0);
                        let mut i: usize = 0;
                        proof {
                            assert(fields@.subrange(0, 0) =~= Seq::<Type>::empty());
                        }
                        while i < fields.len()
                            invariant
                                i <= fields.len(),
                                a.0 < bound,
                                total == sum_below(
                                    context.aggregates@,
                                    fields@.subrange(0, i as int),
                                    a.0 as nat,
                                ),
                            decreases fields.len() - i,
                        {
                            let size = size_below_bound(context, &fields[i], a.0);
                            proof {
                                let now = fields@.subrange(0, i as int + 1);
                                assert(now.drop_last() =~= fields@.subrange(0, i as int));
                                assert(now.last() == fields@[i as int]);
                            }
                            total = match (total, size) {
                                (Some(head), Some(last)) => head.checked_add(last),
                                _ => None,
                            };
                            i += 1;
                        }
                        proof {
                            assert(fields@.subrange(0, i as int) =~= fields@);
                        }
                        total
                    },
                    AggregateContent::ArrayType(_, _) => None,
                }
            } else {
                None
            }
        },
        Type::Union(a) => {
            if a.0 < bound && a.0 < context.aggregates.len() {
                match &context.aggregates[a.0] {
                    AggregateContent::FieldTypes(fields) => {
                        let mut largest: Option<u64> = Some(0);
                        let mut i: usize = 0;
                        proof {
                            assert(fields@.subrange(0, 0) =~= Seq::<Type>::empty());
                        }
                        while i < fields.len()
                            invariant
                                i <= fields.len(),
                                a.0 < bound,
                                largest == max_below(
                                    context.aggregates@,
                                    fields@.subrange(0, i as int),
                                    a.0 as nat,
                                ),
                            decreases fields.len() - i,
                        {
                            let size = size_below_bound(context, &fields[i], a.0);
                            proof {
                                let now = fields@.subrange(0, i as int + 1);
                                assert(now.drop_last() =~= fields@.subrange(0, i as int));
                                assert(now.last() == fields@[i as int]);
                            }
                            largest = match (largest, size) {
                                (Some(head), Some(last)) => Some(if head >= last { head } else { last }),
                                _ => None,
                            };
                            i += 1;
                        }
                        proof {
                            assert(fields@.subrange(0, i as int) =~= fields@);
                        }
                        largest
                    },
                    AggregateContent::ArrayType(_, _) => None,
                }
            } else {
                None
            }
        },
    }
}

/// The number of bytes that a value of type `ty` takes, or `None` where the
/// type has no size in this context: it refers to an aggregate that the
/// context does not hold, that is of another kind than the type says, or that
/// was not added before the aggregate that mentions it, or a size does not
/// fit in 64 bits.
pub fn ir_type_size_in_bytes(context: &Context, ty: &Type) -> (size: Option<u64>)
    ensures
        size == context.spec_type_size(*ty),
{
    size_below_bound(context, ty, context.aggregates.len())
}

} // verus!
