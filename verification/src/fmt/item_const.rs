//! Constants.

use crate::fmt::error::FormatterError;
use crate::fmt::formatter::{Format, FormattedCode, Formatter};
use crate::fmt::syntax::{ItemConst, ItemConstView};
use crate::fmt::text::push_chars;
use vstd::prelude::*;
use vstd::string::StringExecFns;

verus! {

/// `pub `, where the item is public.
pub open spec fn visibility_text(visibility: bool) -> Seq<char> {
    if visibility {
        "pub "@
    } else {
        Seq::empty()
    }
}

/// A constant on one line: `const name: ty = expr;`, without the type where
/// it has none.
pub open spec fn const_text(item: ItemConstView) -> Seq<char> {
    visibility_text(item.visibility) + "const "@ + item.name + (match item.ty_opt {
        Some(ty) => ": "@ + ty,
        None => Seq::empty(),
    }) + " = "@ + item.expr + ";"@
}

/// Writes `pub `, where the item is public.
pub fn write_visibility(formatted_code: &mut FormattedCode, visibility: bool)
    ensures
        final(formatted_code)@ == old(formatted_code)@ + visibility_text(visibility),
{
    if visibility {
        formatted_code.append("pub ");
    } else {
        proof {
            assert(formatted_code@ =~= old(formatted_code)@ + visibility_text(visibility));
        }
    }
}

impl Format for ItemConst {
    open spec fn spec_text(&self, formatter: Formatter) -> Seq<char> {
        const_text(self@)
    }

    open spec fn spec_after(&self, formatter: Formatter) -> Formatter {
        formatter
    }

    fn format(&self, formatted_code: &mut FormattedCode, formatter: &mut Formatter) -> (r: Result<
        (),
        FormatterError,
    >) {
        // Check if visibility token exists if so add it.
        write_visibility(formatted_code, self.visibility);
        // Add the const token
        formatted_code.append("const ");
        // Add name of the const
        push_chars(formatted_code, &self.name);
        // Check if ty exists
        match &self.ty_opt {
            Some(ty) => {
                // Add colon
                formatted_code.append(": ");
                push_chars(formatted_code, ty);
            },
            None => {},
        }
        // Add equal token
        formatted_code.append(" = ");
        push_chars(formatted_code, &self.expr);
        formatted_code.append(";");
        proof {
            assert(formatted_code@ =~= old(formatted_code)@ + self.spec_text(*old(formatter)));
        }
        Ok(())
    }
}

} // verus!
