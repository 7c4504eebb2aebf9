//! Items of any kind, the line that names the kind of program, and a whole
//! program.

use crate::fmt::attribute::attribute_lines;
use crate::fmt::bracket::{inside_braces, outside_braces};
use crate::fmt::error::FormatterError;
use crate::fmt::formatter::{Format, FormattedCode, Formatter};
use crate::fmt::item_abi::abi_text;
use crate::fmt::item_const::const_text;
use crate::fmt::item_enum::enum_text;
use crate::fmt::item_struct::{struct_after, struct_text};
use crate::fmt::syntax::{
    AnnotatedView, ItemKind, ItemKindView, Module, ModuleKind, ModuleKindView, ModuleView,
};
use crate::fmt::text::push_chars;
use vstd::prelude::*;
use vstd::string::StringExecFns;

verus! {

/// The text of an item.
pub open spec fn item_kind_text(item: ItemKindView, formatter: Formatter) -> Seq<char> {
    match item {
        ItemKindView::Struct(item_struct) => struct_text(item_struct, formatter),
        ItemKindView::Enum(item_enum) => enum_text(item_enum, formatter),
        ItemKindView::Abi(item_abi) => abi_text(item_abi, formatter),
        ItemKindView::Const(item_const) => const_text(item_const),
    }
}

/// The formatter once an item has been written.
pub open spec fn item_kind_after(item: ItemKindView, formatter: Formatter) -> Formatter {
    match item {
        ItemKindView::Struct(item_struct) => struct_after(item_struct, formatter),
        ItemKindView::Enum(_) => outside_braces(inside_braces(formatter)),
        ItemKindView::Abi(_) => outside_braces(inside_braces(formatter)),
        ItemKindView::Const(_) => formatter,
    }
}

/// The text of an item with the lines of its attributes before it.
pub open spec fn item_text(item: AnnotatedView<ItemKindView>, formatter: Formatter) -> Seq<char> {
    attribute_lines(item.attribute_list, item.attribute_list.len()) + item_kind_text(
        item.value,
        formatter,
    )
}

/// The formatter once the first `n` of `items` have been written.
pub open spec fn formatter_after_items(
    items: Seq<AnnotatedView<ItemKindView>>,
    formatter: Formatter,
    n: nat,
) -> Formatter
    decreases n,
{
    if n == 0 || n > items.len() {
        formatter
    } else {
        item_kind_after(items[n - 1].value, formatter_after_items(items, formatter, (n - 1) as nat))
    }
}

/// The text of the first `n` of `items`, a line break between two.
pub open spec fn items_text(items: Seq<AnnotatedView<ItemKindView>>, formatter: Formatter, n: nat)
    -> Seq<char>
    decreases n,
{
    if n == 0 || n > items.len() {
        Seq::empty()
    } else if n == items.len() {
        items_text(items, formatter, (n - 1) as nat) + item_text(
            items[n - 1],
            formatter_after_items(items, formatter, (n - 1) as nat),
        )
    } else {
        items_text(items, formatter, (n - 1) as nat) + item_text(
            items[n - 1],
            formatter_after_items(items, formatter, (n - 1) as nat),
        ) + "\n"@
    }
}

/// The first line of a program, which names its kind, and the empty line
/// after it.
pub open spec fn program_type_text(kind: ModuleKindView) -> Seq<char> {
    match kind {
        ModuleKindView::Script => "script"@ + ";\n\n"@,
        ModuleKindView::Contract => "contract"@ + ";\n\n"@,
        ModuleKindView::Predicate => "predicate"@ + ";\n\n"@,
        ModuleKindView::Library { name } => "library"@ + " "@ + name + ";\n\n"@,
    }
}

/// The text of a program: the line that names its kind, an empty line, and
/// its items.
pub open spec fn module_text(module: ModuleView, formatter: Formatter) -> Seq<char> {
    program_type_text(module.kind) + items_text(module.items, formatter, module.items.len())
}

impl Format for ItemKind {
    open spec fn spec_text(&self, formatter: Formatter) -> Seq<char> {
        item_kind_text(self@, formatter)
    }

    open spec fn spec_after(&self, formatter: Formatter) -> Formatter {
        item_kind_after(self@, formatter)
    }

    fn format(&self, formatted_code: &mut FormattedCode, formatter: &mut Formatter) -> (r: Result<
        (),
        FormatterError,
    >) {
        match self {
            ItemKind::Struct(item_struct) => item_struct.format(formatted_code, formatter),
            ItemKind::Enum(item_enum) => item_enum.format(formatted_code, formatter),
            ItemKind::Abi(item_abi) => item_abi.format(formatted_code, formatter),
            ItemKind::Const(item_const) => item_const.format(formatted_code, formatter),
        }
    }
}

/// Insert the program type without applying a formatting.
pub fn insert_program_type(push_to: &mut FormattedCode, program_type: &ModuleKind)
    ensures
        final(push_to)@ == old(push_to)@ + program_type_text(program_type@),
{
    match program_type {
        ModuleKind::Script => push_to.append("script"),
        ModuleKind::Contract => push_to.append("contract"),
        ModuleKind::Predicate => push_to.append("predicate"),
        ModuleKind::Library { name } => {
            push_to.append("library");
            push_to.append(" ");
            push_chars(push_to, name);
        },
    }
    push_to.append(";\n\n");
    proof {
        assert(push_to@ =~= old(push_to)@ + program_type_text(program_type@));
    }
}

impl Format for Module {
    open spec fn spec_text(&self, formatter: Formatter) -> Seq<char> {
        module_text(self@, formatter)
    }

    open spec fn spec_after(&self, formatter: Formatter) -> Formatter {
        formatter_after_items(self@.items, formatter, self@.items.len())
    }

    fn format(&self, formatted_code: &mut FormattedCode, formatter: &mut Formatter) -> (r: Result<
        (),
        FormatterError,
    >) {
        // Insert program type to the formatted code.
        insert_program_type(formatted_code, &self.kind);
        // Insert parsed & formatted items into the formatted code.
        let items = &self.items;
        let ghost head = formatted_code@;
        let ghost views = self@.items;
        let mut i: usize = 0;
        while i < items.len()
            invariant
                i <= items.len(),
                views == self@.items,
                items == &self.items,
                *formatter == formatter_after_items(views, *old(formatter), i as nat),
                formatted_code@ == head + items_text(views, *old(formatter), i as nat),
            decreases items.len() - i,
        {
            let ghost before = *formatter;
            let _ = items[i].format(formatted_code, formatter);
            if i != items.len() - 1 {
                formatted_code.append("\n");
            }
            i += 1;
            proof {
                assert(views[i - 1] == items@[i - 1]@);
                assert(items@[i - 1].spec_text(before) == item_text(views[i - 1], before));
                assert(formatted_code@ =~= head + items_text(views, *old(formatter), i as nat));
            }
        }
        proof {
            assert(formatted_code@ =~= old(formatted_code)@ + self.spec_text(*old(formatter)));
        }
        Ok(())
    }
}

} // verus!
