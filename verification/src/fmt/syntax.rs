//! The parts of a Sway program that the formatter tells apart, and what they
//! stand for: the same parts with their text as sequences of characters.

use vstd::prelude::*;

verus! {

/// What kind of program a file holds.
#[derive(Debug, PartialEq, Eq)]
pub enum ModuleKind {
    Script,
    Contract,
    Predicate,
    Library { name: Vec<char> },
}

/// A file: its kind and its items.
#[derive(Debug, PartialEq, Eq)]
pub struct Module {
    pub kind: ModuleKind,
    pub items: Vec<Annotated<ItemKind>>,
}

/// Something with the attributes that stand before it.
#[derive(Debug, PartialEq, Eq)]
pub struct Annotated<T> {
    pub attribute_list: Vec<AttributeDecl>,
    pub value: T,
}

/// A list of names with commas: the names that a comma follows, and the last
/// name where no comma follows it.
#[derive(Debug, PartialEq, Eq)]
pub struct Punctuated {
    pub value_separator_pairs: Vec<Vec<char>>,
    pub final_value_opt: Option<Vec<char>>,
}

/// An attribute: `#[name(args)]`.
#[derive(Debug, PartialEq, Eq)]
pub struct AttributeDecl {
    pub name: Vec<char>,
    pub args: Option<Punctuated>,
}

/// An item of a file.
#[derive(Debug, PartialEq, Eq)]
pub enum ItemKind {
    Struct(ItemStruct),
    Enum(ItemEnum),
    Abi(ItemAbi),
    Const(ItemConst),
}

/// A field of a struct or a variant of an enum: its name and its type as
/// written.
#[derive(Debug, PartialEq, Eq)]
pub struct TypeField {
    pub name: Vec<char>,
    pub ty: Vec<char>,
}

/// `struct name { fields }`
#[derive(Debug, PartialEq, Eq)]
pub struct ItemStruct {
    pub visibility: bool,
    pub name: Vec<char>,
    pub fields: Vec<TypeField>,
}

/// `enum name { variants }`
#[derive(Debug, PartialEq, Eq)]
pub struct ItemEnum {
    pub visibility: bool,
    pub name: Vec<char>,
    pub fields: Vec<TypeField>,
}

/// The head of a function, from `fn` to the end of its return type, as
/// written.
#[derive(Debug, PartialEq, Eq)]
pub struct FnSignature {
    pub text: Vec<char>,
}

/// `abi name { signatures }`
#[derive(Debug, PartialEq, Eq)]
pub struct ItemAbi {
    pub name: Vec<char>,
    pub abi_items: Vec<Annotated<FnSignature>>,
}

/// `const name: ty = expr;`, type and value as written.
#[derive(Debug, PartialEq, Eq)]
pub struct ItemConst {
    pub visibility: bool,
    pub name: Vec<char>,
    pub ty_opt: Option<Vec<char>>,
    pub expr: Vec<char>,
}

/// What a [`ModuleKind`] stands for.
pub enum ModuleKindView {
    Script,
    Contract,
    Predicate,
    Library { name: Seq<char> },
}

/// What a [`Module`] stands for.
pub struct ModuleView {
    pub kind: ModuleKindView,
    pub items: Seq<AnnotatedView<ItemKindView>>,
}

/// What an [`Annotated`] stands for.
pub struct AnnotatedView<V> {
    pub attribute_list: Seq<AttributeDeclView>,
    pub value: V,
}

/// What a [`Punctuated`] stands for.
pub struct PunctuatedView {
    pub value_separator_pairs: Seq<Seq<char>>,
    pub final_value_opt: Option<Seq<char>>,
}

/// What an [`AttributeDecl`] stands for.
pub struct AttributeDeclView {
    pub name: Seq<char>,
    pub args: Option<PunctuatedView>,
}

/// What an [`ItemKind`] stands for.
pub enum ItemKindView {
    Struct(ItemStructView),
    Enum(ItemEnumView),
    Abi(ItemAbiView),
    Const(ItemConstView),
}

/// What a [`TypeField`] stands for.
pub struct TypeFieldView {
    pub name: Seq<char>,
    pub ty: Seq<char>,
}

/// What an [`ItemStruct`] stands for.
pub struct ItemStructView {
    pub visibility: bool,
    pub name: Seq<char>,
    pub fields: Seq<TypeFieldView>,
}

/// What an [`ItemEnum`] stands for.
pub struct ItemEnumView {
    pub visibility: bool,
    pub name: Seq<char>,
    pub fields: Seq<TypeFieldView>,
}

/// What an [`ItemAbi`] stands for.
pub struct ItemAbiView {
    pub name: Seq<char>,
    pub abi_items: Seq<AnnotatedView<Seq<char>>>,
}

/// What an [`ItemConst`] stands for.
pub struct ItemConstView {
    pub visibility: bool,
    pub name: Seq<char>,
    pub ty_opt: Option<Seq<char>>,
    pub expr: Seq<char>,
}

/// What a list of names stands for.
pub open spec fn names_view(names: Seq<Vec<char>>) -> Seq<Seq<char>> {
    names.map_values(|v: Vec<char>| v@)
}

/// What a list of attributes stands for.
pub open spec fn attributes_view(attributes: Seq<AttributeDecl>) -> Seq<AttributeDeclView> {
    attributes.map_values(|a: AttributeDecl| a@)
}

/// What a list of fields stands for.
pub open spec fn type_fields_view(fields: Seq<TypeField>) -> Seq<TypeFieldView> {
    fields.map_values(|f: TypeField| f@)
}

impl View for ModuleKind {
    type V = ModuleKindView;

    open spec fn view(&self) -> ModuleKindView {
        match self {
            ModuleKind::Script => ModuleKindView::Script,
            ModuleKind::Contract => ModuleKindView::Contract,
            ModuleKind::Predicate => ModuleKindView::Predicate,
            ModuleKind::Library { name } => ModuleKindView::Library { name: name@ },
        }
    }
}

impl View for Punctuated {
    type V = PunctuatedView;

    open spec fn view(&self) -> PunctuatedView {
        PunctuatedView {
            value_separator_pairs: names_view(self.value_separator_pairs@),
            final_value_opt: match self.final_value_opt {
                Some(value) => Some(value@),
                None => None,
            },
        }
    }
}

impl View for AttributeDecl {
    type V = AttributeDeclView;

    open spec fn view(&self) -> AttributeDeclView {
        AttributeDeclView {
            name: self.name@,
            args: match self.args {
                Some(args) => Some(args@),
                None => None,
            },
        }
    }
}

impl<T: View> View for Annotated<T> {
    type V = AnnotatedView<T::V>;

    open spec fn view(&self) -> AnnotatedView<T::V> {
        AnnotatedView {
            attribute_list: attributes_view(self.attribute_list@),
            value: self.value@,
        }
    }
}

impl View for TypeField {
    type V = TypeFieldView;

    open spec fn view(&self) -> TypeFieldView {
        TypeFieldView { name: self.name@, ty: self.ty@ }
    }
}

impl View for ItemStruct {
    type V = ItemStructView;

    open spec fn view(&self) -> ItemStructView {
        ItemStructView {
            visibility: self.visibility,
            name: self.name@,
            fields: type_fields_view(self.fields@),
        }
    }
}

impl View for ItemEnum {
    type V = ItemEnumView;

    open spec fn view(&self) -> ItemEnumView {
        ItemEnumView {
            visibility: self.visibility,
            name: self.name@,
            fields: type_fields_view(self.fields@),
        }
    }
}

impl View for FnSignature {
    type V = Seq<char>;

    open spec fn view(&self) -> Seq<char> {
        self.text@
    }
}

impl View for ItemAbi {
    type V = ItemAbiView;

    open spec fn view(&self) -> ItemAbiView {
        ItemAbiView {
            name: self.name@,
            abi_items: self.abi_items@.map_values(|item: Annotated<FnSignature>| item@),
        }
    }
}

impl View for ItemConst {
    type V = ItemConstView;

    open spec fn view(&self) -> ItemConstView {
        ItemConstView {
            visibility: self.visibility,
            name: self.name@,
            ty_opt: match self.ty_opt {
                Some(ty) => Some(ty@),
                None => None,
            },
            expr: self.expr@,
        }
    }
}

impl View for ItemKind {
    type V = ItemKindView;

    open spec fn view(&self) -> ItemKindView {
        match self {
            ItemKind::Struct(item_struct) => ItemKindView::Struct(item_struct@),
            ItemKind::Enum(item_enum) => ItemKindView::Enum(item_enum@),
            ItemKind::Abi(item_abi) => ItemKindView::Abi(item_abi@),
            ItemKind::Const(item_const) => ItemKindView::Const(item_const@),
        }
    }
}

impl View for Module {
    type V = ModuleView;

    open spec fn view(&self) -> ModuleView {
        ModuleView {
            kind: self.kind@,
            items: self.items@.map_values(|item: Annotated<ItemKind>| item@),
        }
    }
}

} // verus!
