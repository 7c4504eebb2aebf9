//! Attributes, and items that carry them.

use crate::fmt::error::FormatterError;
use crate::fmt::formatter::{Format, FormattedCode, Formatter};
use crate::fmt::syntax::{names_view, Annotated, AttributeDecl, AttributeDeclView};
use crate::fmt::text::push_chars;
use vstd::prelude::*;
use vstd::string::StringExecFns;

verus! {

/// What can be written as a line of its own before an item.
pub trait FormatDecl {
    /// The line that stands for `self`.
    spec fn spec_line(&self) -> Seq<char>;

    /// Appends the line that stands for `self`.
    fn format(&self, line: &mut String, formatter: &mut Formatter) -> (r: Result<
        (),
        FormatterError,
    >)
        ensures
            r is Ok,
            final(line)@ == old(line)@ + self.spec_line(),
            *final(formatter) == *old(formatter),
    ;
}

/// `s` without its last character, if it has one.
pub open spec fn popped(s: Seq<char>) -> Seq<char> {
    if s.len() > 0 {
        s.drop_last()
    } else {
        s
    }
}

/// The first `n` of `values`, each with a comma behind it, joined by spaces.
pub open spec fn joined_with_commas(values: Seq<Seq<char>>, n: nat) -> Seq<char>
    decreases n,
{
    if n == 0 || n > values.len() {
        Seq::empty()
    } else if n == 1 {
        values[0].push(',')
    } else {
        joined_with_commas(values, (n - 1) as nat).push(' ') + values[n - 1].push(',')
    }
}

/// The arguments of an attribute as they are written: the values that a
/// comma follows, joined, without the last character if there is one value
/// and without the last two if there are more. A value that no comma follows
/// is not written.
pub open spec fn attribute_args_text(values: Seq<Seq<char>>) -> Seq<char> {
    let buf = joined_with_commas(values, values.len());
    if values.len() == 1 {
        popped(buf)
    } else {
        popped(popped(buf))
    }
}

/// The line of an attribute: `#[name(args)]`, with empty parentheses where
/// it has no arguments.
pub open spec fn attribute_line(attribute: AttributeDeclView) -> Seq<char> {
    "#"@ + "["@ + attribute.name + "("@ + (match attribute.args {
        Some(args) => attribute_args_text(args.value_separator_pairs),
        None => Seq::empty(),
    }) + ")"@ + "]\n"@
}

/// The lines of the first `n` of `attributes`.
pub open spec fn attribute_lines(attributes: Seq<AttributeDeclView>, n: nat) -> Seq<char>
    decreases n,
{
    if n == 0 || n > attributes.len() {
        Seq::empty()
    } else {
        attribute_lines(attributes, (n - 1) as nat) + attribute_line(attributes[n - 1])
    }
}

impl AttributeDecl {
    /// `[`
    pub fn open_square_bracket(line: &mut String, formatter: &mut Formatter) -> (r: Result<
        (),
        FormatterError,
    >)
        ensures
            r is Ok,
            final(line)@ == old(line)@ + "["@,
            *final(formatter) == *old(formatter),
    {
        line.append("[");
        Ok(())
    }

    /// `]` and the end of the line
    pub fn close_square_bracket(line: &mut String, formatter: &mut Formatter) -> (r: Result<
        (),
        FormatterError,
    >)
        ensures
            r is Ok,
            final(line)@ == old(line)@ + "]\n"@,
            *final(formatter) == *old(formatter),
    {
        line.append("]\n");
        Ok(())
    }

    /// `(`
    pub fn open_parenthesis(line: &mut String, formatter: &mut Formatter) -> (r: Result<
        (),
        FormatterError,
    >)
        ensures
            r is Ok,
            final(line)@ == old(line)@ + "("@,
            *final(formatter) == *old(formatter),
    {
        line.append("(");
        Ok(())
    }

    /// `)`
    pub fn close_parenthesis(line: &mut String, formatter: &mut Formatter) -> (r: Result<
        (),
        FormatterError,
    >)
        ensures
            r is Ok,
            final(line)@ == old(line)@ + ")"@,
            *final(formatter) == *old(formatter),
    {
        line.append(")");
        Ok(())
    }
}

/// The values that a comma follows, joined and cut as they are written.
fn args_buffer(values: &Vec<Vec<char>>) -> (buf: Vec<char>)
    ensures
        buf@ == attribute_args_text(names_view(values@)),
{
    let ghost views = names_view(values@);
    let mut buf: Vec<char> = Vec::new();
    let mut i: usize = 0;
    while i < values.len()
        invariant
            i <= values.len(),
            views == names_view(values@),
            buf@ == joined_with_commas(views, i as nat),
        decreases values.len() - i,
    {
        if i > 0 {
            buf.push(' ');
        }
        let value = &values[i];
        let ghost before = buf@;
        let mut j: usize = 0;
        while j < value.len()
            invariant
                j <= value.len(),
                buf@ == before + value@.subrange(0, j as int),
            decreases value.len() - j,
        {
            buf.push(value[j]);
            j += 1;
            proof {
                assert(buf@ =~= before + value@.subrange(0, j as int));
            }
        }
        buf.push(',');
        i += 1;
        proof {
            assert(value@.subrange(0, j as int) =~= value@);
            assert(views[i - 1] == value@);
            assert(buf@ =~= joined_with_commas(views, i as nat));
        }
    }
    if values.len() == 1 {
        buf.pop();  // pop the ending comma
    } else {
        buf.pop();
        buf.pop();
    }
    buf
}

impl FormatDecl for AttributeDecl {
    open spec fn spec_line(&self) -> Seq<char> {
        attribute_line(self@)
    }

    fn format(&self, line: &mut String, formatter: &mut Formatter) -> (r: Result<
        (),
        FormatterError,
    >) {
        // The attribute is written on one line.
        //
        // `#`
        line.append("#");
        // `[`
        let _ = Self::open_square_bracket(line, formatter);
        // name e.g. `storage`
        push_chars(line, &self.name);
        // `(`
        let _ = Self::open_parenthesis(line, formatter);
        // format and add args `read, write`
        match &self.args {
            Some(args) => {
                let buf = args_buffer(&args.value_separator_pairs);
                push_chars(line, &buf);
            },
            None => {},
        }
        // ')'
        let _ = Self::close_parenthesis(line, formatter);
        // `]\n`
        let _ = Self::close_square_bracket(line, formatter);
        proof {
            assert(line@ =~= old(line)@ + self.spec_line());
        }
        Ok(())
    }
}

impl<T: Format + View> Format for Annotated<T> {
    /// The lines of the attributes, then the text of what they stand before.
    open spec fn spec_text(&self, formatter: Formatter) -> Seq<char> {
        attribute_lines(self@.attribute_list, self@.attribute_list.len()) + self.value.spec_text(
            formatter,
        )
    }

    open spec fn spec_after(&self, formatter: Formatter) -> Formatter {
        self.value.spec_after(formatter)
    }

    fn format(&self, formatted_code: &mut FormattedCode, formatter: &mut Formatter) -> (r: Result<
        (),
        FormatterError,
    >) {
        let attributes = &self.attribute_list;
        let ghost views = self@.attribute_list;
        let mut i: usize = 0;
        while i < attributes.len()
            invariant
                i <= attributes.len(),
                views == self@.attribute_list,
                attributes == &self.attribute_list,
                *formatter == *old(formatter),
                formatted_code@ == old(formatted_code)@ + attribute_lines(views, i as nat),
            decreases attributes.len() - i,
        {
            let _ = attributes[i].format(formatted_code, formatter);
            i += 1;
            proof {
                assert(views[i - 1] == attributes@[i - 1]@);
                assert(formatted_code@ =~= old(formatted_code)@ + attribute_lines(views, i as nat));
            }
        }
        let r = self.value.format(formatted_code, formatter);
        proof {
            assert(formatted_code@ =~= old(formatted_code)@ + self.spec_text(*old(formatter)));
        }
        r
    }
}

} // verus!
