//! The fields of a struct and the variants of an enum: how their names are
//! aligned.

use crate::fmt::formatter::FormattedCode;
use crate::fmt::syntax::{type_fields_view, TypeField, TypeFieldView};
use crate::fmt::text::{push_chars, push_repeated, repeated};
use vstd::prelude::*;

verus! {

/// The length of the longest name among `fields` that is shorter than
/// `threshold`; 0 where there is none.
pub open spec fn widest_below(fields: Seq<TypeFieldView>, threshold: nat) -> nat
    decreases fields.len(),
{
    if fields.len() == 0 {
        0
    } else {
        let so_far = widest_below(fields.drop_last(), threshold);
        let length = fields.last().name.len();
        if length > so_far && length < threshold {
            length
        } else {
            so_far
        }
    }
}

/// `name`, followed by spaces up to `widest` characters where it is shorter.
pub open spec fn aligned_name(name: Seq<char>, widest: nat) -> Seq<char> {
    if name.len() < widest {
        name + repeated(' ', (widest - name.len()) as nat)
    } else {
        name
    }
}

/// Finds the length of the longest name that is still shorter than the
/// threshold.
pub fn max_valid_length(fields: &Vec<TypeField>, threshold: usize) -> (widest: usize)
    ensures
        widest == widest_below(type_fields_view(fields@), threshold as nat),
{
    let ghost views = type_fields_view(fields@);
    let mut max_valid_variant_length: usize = 0;
    let mut i: usize = 0;
    proof {
        assert(views.subrange(0, 0) =~= Seq::<TypeFieldView>::empty());
    }
    while i < fields.len()
        invariant
            i <= fields.len(),
            views == type_fields_view(fields@),
            max_valid_variant_length == widest_below(views.subrange(0, i as int), threshold as nat),
        decreases fields.len() - i,
    {
        let length = fields[i].name.len();
        proof {
            let now = views.subrange(0, i as int + 1);
            assert(now.drop_last() =~= views.subrange(0, i as int));
            assert(now.last() == fields@[i as int]@);
        }
        if length > max_valid_variant_length && length < threshold {
            max_valid_variant_length = length;
        }
        i += 1;
    }
    proof {
        assert(views.subrange(0, i as int) =~= views);
    }
    max_valid_variant_length
}

/// Writes a name and the spaces that align what follows it.
pub fn write_aligned_name(formatted_code: &mut FormattedCode, name: &Vec<char>, widest: usize)
    ensures
        final(formatted_code)@ == old(formatted_code)@ + aligned_name(name@, widest as nat),
{
    push_chars(formatted_code, name);
    let current_variant_length = name.len();
    if current_variant_length < widest {
        // We need to add alignment between the name and the colon
        let required_alignment = widest - current_variant_length;
        push_repeated(formatted_code, ' ', required_alignment);
        proof {
            assert(formatted_code@ =~= old(formatted_code)@ + aligned_name(name@, widest as nat));
        }
    }
}

} // verus!
