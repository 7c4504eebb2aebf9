use sway_tools::fmt::attribute::FormatDecl;
use sway_tools::fmt::config::{
    Config, ConfigError, HeuristicsPreferences, ItemBraceStyle, NewlineStyle,
};
use sway_tools::fmt::error::{FormatterError, ParseError};
use sway_tools::fmt::formatter::{Format, Formatter};
use sway_tools::fmt::lexer::{find_token_start, token_from, Token};
use sway_tools::fmt::newline_style::apply_newline_style;
use sway_tools::fmt::parser::parse_file;
use sway_tools::fmt::shape::{Indent, Shape};
use sway_tools::fmt::syntax::{
    Annotated, AttributeDecl, FnSignature, ItemAbi, ItemConst, ItemEnum, ItemKind, ItemStruct,
    Module, ModuleKind, Punctuated, TypeField,
};
use sway_tools::fmt::text::{chars_of, push_chars, push_repeated, slice_of};

fn chars(text: &str) -> Vec<char> {
    text.chars().collect()
}

fn format_with(formatter: &mut Formatter, source: &str) -> String {
    formatter.format(source).unwrap()
}

fn format_default(source: &str) -> String {
    format_with(&mut Formatter::default(), source)
}

fn field(name: &str, ty: &str) -> TypeField {
    TypeField { name: chars(name), ty: chars(ty) }
}

fn attribute(name: &str, pairs: &[&str], last: Option<&str>) -> AttributeDecl {
    AttributeDecl {
        name: chars(name),
        args: Some(Punctuated {
            value_separator_pairs: pairs.iter().map(|p| chars(p)).collect(),
            final_value_opt: last.map(chars),
        }),
    }
}

fn line_of(attribute: &AttributeDecl) -> String {
    let mut line = String::new();
    let mut formatter = Formatter::default();
    FormatDecl::format(attribute, &mut line, &mut formatter).unwrap();
    assert_eq!(formatter, Formatter::default());
    line
}

#[test]
fn default_settings() {
    let config = Config::default();
    assert_eq!(config.whitespace.max_width, 100);
    assert_eq!(config.whitespace.tab_spaces, 4);
    assert!(!config.whitespace.hard_tabs);
    assert_eq!(config.whitespace.newline_style, NewlineStyle::Auto);
    assert_eq!(config.items.item_brace_style, ItemBraceStyle::SameLineWhere);
    assert_eq!(config.heuristics.heuristics_pref, HeuristicsPreferences::Scaled);
    assert_eq!(config.structures.enum_variant_align_threshold, 0);
    assert_eq!(config.structures.struct_field_align_threshold, 0);
    assert!(config.structures.struct_lit_single_line);
    let formatter = Formatter::default();
    assert_eq!(formatter.config, config);
    assert_eq!(formatter.shape, Shape::default());
    assert_eq!(Shape::default().indent, Indent { block_indent: 0, alignment: 0 });
}

#[test]
fn from_dir_takes_the_settings_that_were_found() {
    let mut config = Config::default();
    config.whitespace.max_width = 77;
    config.structures.struct_field_align_threshold = 9;
    let formatter = Formatter::from_dir(Ok(config)).unwrap();
    assert_eq!(formatter.config, config);
    assert_eq!(formatter.shape, Shape::default());
}

#[test]
fn from_dir_falls_back_to_the_default_settings() {
    let formatter = Formatter::from_dir(Err(ConfigError::NotFound)).unwrap();
    assert_eq!(formatter.config, Config::default());
    assert_eq!(formatter.shape, Shape::default());
}

#[test]
fn from_dir_passes_other_errors_on() {
    let unread = ConfigError::ReadConfig { path: "a/swayfmt.toml".into(), err: "denied".into() };
    assert_eq!(Formatter::from_dir(Err(unread.clone())), Err(unread));
    let broken = ConfigError::Deserialize { err: "expected a table".into() };
    assert_eq!(Formatter::from_dir(Err(broken.clone())), Err(broken));
}

#[test]
fn struct_width_follows_the_line_width() {
    let mut config = Config::default();
    assert_eq!(config.struct_lit_width(), 18);
    config.whitespace.max_width = 80;
    assert_eq!(config.struct_lit_width(), 18);
    config.whitespace.max_width = 101;
    assert_eq!(config.struct_lit_width(), 18);
    config.whitespace.max_width = 105;
    assert_eq!(config.struct_lit_width(), 20);
    config.whitespace.max_width = 150;
    assert_eq!(config.struct_lit_width(), 27);
    config.whitespace.max_width = 300;
    assert_eq!(config.struct_lit_width(), 54);
    config.whitespace.max_width = usize::MAX;
    let tenths = usize::MAX / 10 + 1;
    assert_eq!(config.struct_lit_width() as u128, (18 * tenths as u128 + 5) / 10);
    config.heuristics.heuristics_pref = HeuristicsPreferences::Max;
    config.whitespace.max_width = 120;
    assert_eq!(config.struct_lit_width(), 120);
    config.heuristics.heuristics_pref = HeuristicsPreferences::Off;
    assert_eq!(config.struct_lit_width(), usize::MAX);
}

#[test]
fn shape_moves_in_and_out() {
    let shape = Shape::default().block_indent(4);
    assert_eq!(shape.indent, Indent { block_indent: 4, alignment: 0 });
    assert_eq!(shape.block_indent(4).indent.block_indent, 8);
    assert_eq!(shape.block_unindent(4), Shape::default());
    assert_eq!(shape.block_unindent(5), Shape::default());
    let far = Shape { width: 3, indent: Indent { block_indent: usize::MAX - 1, alignment: 2 }, offset: 1 };
    assert_eq!(far.block_indent(4).indent.block_indent, usize::MAX);
    assert_eq!(far.block_unindent(4).indent.block_indent, usize::MAX - 5);
    assert_eq!(far.block_unindent(4).indent.alignment, 2);
    assert_eq!(far.block_unindent(4).width, 3);
}

#[test]
fn indentation_text() {
    let mut config = Config::default();
    let indent = Indent { block_indent: 8, alignment: 3 };
    let mut out = String::from("x");
    indent.write(&mut out, &config);
    assert_eq!(out, "x           ");
    config.whitespace.hard_tabs = true;
    let mut out = String::new();
    indent.write(&mut out, &config);
    assert_eq!(out, "\t\t   ");
    config.whitespace.tab_spaces = 0;
    let mut out = String::new();
    indent.write(&mut out, &config);
    assert_eq!(out, "   ");
}

#[test]
fn text_helpers() {
    assert_eq!(chars_of("aé\n"), vec!['a', 'é', '\n']);
    assert_eq!(chars_of(""), Vec::<char>::new());
    let mut out = String::from("ab");
    push_chars(&mut out, &chars("cd€"));
    push_repeated(&mut out, '-', 3);
    push_repeated(&mut out, '!', 0);
    assert_eq!(out, "abcd€---");
    assert_eq!(slice_of(&chars("hello"), 1, 4), chars("ell"));
    assert_eq!(slice_of(&chars("hello"), 2, 2), chars(""));
}

#[test]
fn tokens_and_what_stands_between_them() {
    let src = chars("  // note\n /* a\n b */ name_1+\"a\\\"b;\" x");
    assert_eq!(find_token_start(&src, 0), 22);
    assert_eq!(token_from(&src, 0), Some(Token { start: 22, end: 28 }));
    assert_eq!(token_from(&src, 28), Some(Token { start: 28, end: 29 }));
    assert_eq!(token_from(&src, 29), Some(Token { start: 29, end: 36 }));
    assert_eq!(token_from(&src, 36), Some(Token { start: 37, end: 38 }));
    assert_eq!(token_from(&src, 38), None);
    let open = chars("a /* never closed");
    assert_eq!(token_from(&open, 1), None);
    let quote = chars("\"open");
    assert_eq!(token_from(&quote, 0), Some(Token { start: 0, end: 5 }));
    let slash = chars(" / x");
    assert_eq!(token_from(&slash, 0), Some(Token { start: 1, end: 2 }));
}

#[test]
fn attribute_with_one_trailing_comma() {
    assert_eq!(line_of(&attribute("storage", &["write"], None)), "#[storage(write)]\n");
}

#[test]
fn attribute_writes_only_what_a_comma_follows() {
    assert_eq!(line_of(&attribute("storage", &["read"], Some("write"))), "#[storage(read)]\n");
    assert_eq!(line_of(&attribute("storage", &[], Some("read"))), "#[storage()]\n");
    assert_eq!(line_of(&attribute("storage", &[], None)), "#[storage()]\n");
}

#[test]
fn attribute_with_more_values_loses_two_characters() {
    assert_eq!(
        line_of(&attribute("storage", &["read", "write"], None)),
        "#[storage(read, writ)]\n"
    );
    assert_eq!(
        line_of(&attribute("a", &["x", "y", "z"], Some("w"))),
        "#[a(x, y, )]\n"
    );
}

#[test]
fn attribute_without_arguments() {
    let bare = AttributeDecl { name: chars("test"), args: None };
    assert_eq!(line_of(&bare), "#[test()]\n");
}

#[test]
fn attribute_brackets() {
    let mut formatter = Formatter::default();
    let mut line = String::new();
    AttributeDecl::open_square_bracket(&mut line, &mut formatter).unwrap();
    AttributeDecl::open_parenthesis(&mut line, &mut formatter).unwrap();
    AttributeDecl::close_parenthesis(&mut line, &mut formatter).unwrap();
    AttributeDecl::close_square_bracket(&mut line, &mut formatter).unwrap();
    assert_eq!(line, "[()]\n");
    assert_eq!(formatter, Formatter::default());
}

#[test]
fn annotated_item_puts_attributes_first() {
    let item = Annotated {
        attribute_list: vec![attribute("doc", &["a"], None), attribute("storage", &["read"], None)],
        value: ItemKind::Const(ItemConst {
            visibility: false,
            name: chars("X"),
            ty_opt: None,
            expr: chars("1"),
        }),
    };
    let mut out = String::new();
    let mut formatter = Formatter::default();
    Format::format(&item, &mut out, &mut formatter).unwrap();
    assert_eq!(out, "#[doc(a)]\n#[storage(read)]\nconst X = 1;");
}

#[test]
fn const_without_type() {
    assert_eq!(format_default("script;\nconst  X=5 ;"), "script;\n\nconst X = 5;");
}

#[test]
fn const_value_is_kept_as_written() {
    assert_eq!(
        format_default("script; const S :str[3]  =  \"a;b\" ; const T: u64 = f( 1,2 )  +  {3;4}  ;"),
        "script;\n\nconst S: str[3] = \"a;b\";\nconst T: u64 = f( 1,2 )  +  {3;4};"
    );
}

#[test]
fn comments_between_tokens_are_left_out() {
    assert_eq!(
        format_default("// header\ncontract; /* one */ pub /* two */ const A: u8 = 1; // end"),
        "contract;\n\npub const A: u8 = 1;"
    );
}

#[test]
fn program_kinds() {
    assert_eq!(format_default("script;"), "script;\n\n");
    assert_eq!(format_default(" contract ; "), "contract;\n\n");
    assert_eq!(format_default("predicate;"), "predicate;\n\n");
    assert_eq!(format_default("library   my_lib ;"), "library my_lib;\n\n");
}

#[test]
fn struct_without_trailing_comma() {
    assert_eq!(
        format_default("contract; struct P { x: u64, y: (u64, bool) }"),
        "contract;\n\nstruct P {\n    x: u64,\n    y: (u64, bool),\n}"
    );
}

#[test]
fn struct_field_types_with_brackets() {
    assert_eq!(
        format_default("contract; struct P { m: Map<u64, Vec<bool>>, a: [u8; 3], }"),
        "contract;\n\nstruct P {\n    m: Map<u64, Vec<bool>>,\n    a: [u8; 3],\n}"
    );
}

#[test]
fn empty_struct() {
    assert_eq!(format_default("contract; struct E {}"), "contract;\n\nstruct E {  }");
    let mut formatter = Formatter::default();
    formatter.config.structures.struct_lit_single_line = false;
    assert_eq!(format_with(&mut formatter, "contract; struct E {}"), "contract;\n\nstruct E {\n}");
}

#[test]
fn struct_stays_on_one_line_up_to_the_width() {
    let mut formatter = Formatter::default();
    // `struct A { b: u8 }` is 18 characters wide
    assert_eq!(format_with(&mut formatter, "contract; struct A { b: u8 }"), "contract;\n\nstruct A { b: u8 }");
    assert_eq!(
        format_with(&mut formatter, "contract; struct Ab { b: u8 }"),
        "contract;\n\nstruct Ab {\n    b: u8,\n}"
    );
    formatter.config.heuristics.heuristics_pref = HeuristicsPreferences::Off;
    assert_eq!(
        format_with(&mut formatter, "contract; struct Ab { b: u8, cde: u64 }"),
        "contract;\n\nstruct Ab { b: u8, cde: u64 }"
    );
}

#[test]
fn struct_alignment_skips_long_names() {
    let mut formatter = Formatter::default();
    formatter.config.structures.struct_field_align_threshold = 5;
    assert_eq!(
        format_with(&mut formatter, "contract; struct S { a: u8, abcd: u8, abcde: u8, abcdefg: u8 }"),
        "contract;\n\nstruct S {\n    a   : u8,\n    abcd: u8,\n    abcde: u8,\n    abcdefg: u8,\n}"
    );
}

#[test]
fn struct_on_one_line_is_aligned_too() {
    let mut formatter = Formatter::default();
    formatter.config.structures.struct_field_align_threshold = 9;
    formatter.config.heuristics.heuristics_pref = HeuristicsPreferences::Off;
    assert_eq!(
        format_with(&mut formatter, "contract; struct S { a: u8, abc: u8 }"),
        "contract;\n\nstruct S { a  : u8, abc: u8 }"
    );
}

#[test]
fn public_enum() {
    assert_eq!(
        format_default("contract; pub enum E { A: (), B: u64 }"),
        "contract;\n\npub enum E {\n    A : (),\n    B : u64,\n}"
    );
}

#[test]
fn enum_alignment_threshold_is_exclusive() {
    let mut formatter = Formatter::default();
    formatter.config.structures.enum_variant_align_threshold = 6;
    assert_eq!(
        format_with(&mut formatter, "contract; enum Color { Blue: (), Green: (), Silver: (), }"),
        "contract;\n\nenum Color {\n    Blue  : (),\n    Green : (),\n    Silver : (),\n}"
    );
}

#[test]
fn braces_on_their_own_line() {
    let mut formatter = Formatter::default();
    formatter.config.items.item_brace_style = ItemBraceStyle::AlwaysNextLine;
    assert_eq!(
        format_with(&mut formatter, "contract; enum E { A: () } abi T { fn f(); }"),
        "contract;\n\nenum E\n{\n    A : (),\n}\nabi T\n{\n    fn f();\n}"
    );
}

#[test]
fn hard_tabs_and_wide_tabs() {
    let mut formatter = Formatter::default();
    formatter.config.whitespace.hard_tabs = true;
    assert_eq!(
        format_with(&mut formatter, "contract; enum E { A: () }"),
        "contract;\n\nenum E {\n\tA : (),\n}"
    );
    let mut formatter = Formatter::default();
    formatter.config.whitespace.tab_spaces = 2;
    assert_eq!(
        format_with(&mut formatter, "contract; enum E { A: () }"),
        "contract;\n\nenum E {\n  A : (),\n}"
    );
}

#[test]
fn formatter_comes_back_to_its_shape() {
    let mut formatter = Formatter::default();
    format_with(&mut formatter, "contract; enum E { A: () } struct Long { field: u64 } abi T { fn f(); }");
    assert_eq!(formatter, Formatter::default());
    let mut formatter = Formatter::default();
    formatter.shape = Shape::default().block_indent(4);
    assert_eq!(
        format_with(&mut formatter, "contract; enum E { A: () }"),
        "contract;\n\nenum E {\n        A : (),\n}"
    );
    assert_eq!(formatter.shape, Shape::default().block_indent(4));
}

#[test]
fn abi_with_several_attributes() {
    assert_eq!(
        format_default("contract; abi T { #[a(x,)] #[b(y,)] fn f(v: u64) -> bool; #[c] fn g(); }"),
        "contract;\n\nabi T {\n    #[a(x)]\n    #[b(y)]\n    fn f(v: u64) -> bool;\n\n    #[c()]\n    fn g();\n}"
    );
}

#[test]
fn empty_abi() {
    assert_eq!(format_default("contract; abi T { }"), "contract;\n\nabi T {\n}");
}

#[test]
fn attributes_before_items() {
    assert_eq!(
        format_default("contract;\n#[doc(hidden,)]\npub struct Long { field: u64 }\n#[test] const X = 1;"),
        "contract;\n\n#[doc(hidden)]\npub struct Long {\n    field: u64,\n}\n#[test()]\nconst X = 1;"
    );
}

#[test]
fn windows_line_endings() {
    let mut formatter = Formatter::default();
    formatter.config.whitespace.newline_style = NewlineStyle::Windows;
    assert_eq!(
        format_with(&mut formatter, "contract;\nenum E { A: () }"),
        "contract;\r\n\r\nenum E {\r\n    A : (),\r\n}"
    );
}

#[test]
fn unix_line_endings() {
    let mut formatter = Formatter::default();
    formatter.config.whitespace.newline_style = NewlineStyle::Unix;
    assert_eq!(
        format_with(&mut formatter, "contract;\r\nconst A = f(\r\n1);\r\n"),
        "contract;\n\nconst A = f(\n1);"
    );
}

#[test]
fn line_endings_follow_the_first_line() {
    let mut text = String::from("a\r\nb\nc\r\n");
    apply_newline_style(NewlineStyle::Auto, &mut text, "x\r\ny\n");
    assert_eq!(text, "a\r\nb\r\nc\r\n");
    let mut text = String::from("a\r\nb\nc\r\n");
    apply_newline_style(NewlineStyle::Auto, &mut text, "x\ny\r\n");
    assert_eq!(text, "a\nb\nc\n");
    let mut text = String::from("a\r\nb\rc");
    apply_newline_style(NewlineStyle::Auto, &mut text, "\nx");
    assert_eq!(text, "a\nb\rc");
    let mut text = String::from("a\r\nb\rc\r");
    apply_newline_style(NewlineStyle::Auto, &mut text, "no line feed\r");
    assert_eq!(text, "a\nb\rc\r");
    let mut text = String::from("\n\r\r\n");
    apply_newline_style(NewlineStyle::Windows, &mut text, "");
    assert_eq!(text, "\r\n\r\r\n");
}

#[test]
fn text_that_is_no_program() {
    let mut formatter = Formatter::default();
    let end = Err(FormatterError::ParseFileError(ParseError::UnexpectedEnd));
    assert_eq!(formatter.format(""), end);
    assert_eq!(formatter.format("  // nothing\n"), end);
    assert_eq!(formatter.format("contract"), end);
    assert_eq!(formatter.format("library"), end);
    assert_eq!(formatter.format("contract; pub"), end);
    assert_eq!(formatter.format("contract; struct"), end);
    assert_eq!(formatter.format("contract; struct S { a: u8"), end);
    assert_eq!(formatter.format("contract; const A = 1"), end);
    assert_eq!(formatter.format("contract; abi T { fn f()"), end);
    assert_eq!(formatter.format("contract; #[a(b"), end);
    assert_eq!(formatter, Formatter::default());
}

#[test]
fn unexpected_tokens_are_located() {
    let mut formatter = Formatter::default();
    let at = |offset: usize| Err(FormatterError::ParseFileError(ParseError::UnexpectedToken(offset)));
    assert_eq!(formatter.format("program;"), at(0));
    assert_eq!(formatter.format("contract x"), at(9));
    assert_eq!(formatter.format("library 1;"), at(8));
    assert_eq!(formatter.format("contract; fn main() {}"), at(10));
    assert_eq!(formatter.format("contract; pub abi T {}"), at(14));
    assert_eq!(formatter.format("contract; struct 1 {}"), at(17));
    assert_eq!(formatter.format("contract; struct S ( a: u8 )"), at(19));
    assert_eq!(formatter.format("contract; struct S { a u8 }"), at(23));
    assert_eq!(formatter.format("contract; struct S { a: , }"), at(24));
    assert_eq!(formatter.format("contract; struct S { a: (u8], }"), at(27));
    assert_eq!(formatter.format("contract; struct S { a: u8) }"), at(26));
    assert_eq!(formatter.format("contract; struct S { a: Vec<(u8>), }"), at(31));
    assert_eq!(formatter.format("contract; const A = f(1}; "), at(23));
    assert_eq!(formatter.format("contract; const A: u8; "), at(21));
    assert_eq!(formatter.format("contract; const A: = 1;"), at(19));
    assert_eq!(formatter.format("contract; const A = ;"), at(20));
    assert_eq!(formatter.format("contract; const A 1;"), at(18));
    assert_eq!(formatter.format("contract; abi T { const A = 1; }"), at(18));
    assert_eq!(formatter.format("contract; #[a(b c)] const A = 1;"), at(16));
    assert_eq!(formatter.format("contract; #[a b] const A = 1;"), at(14));
    assert_eq!(formatter.format("contract; #[1] const A = 1;"), at(12));
    assert_eq!(formatter.format("contract; #(a) const A = 1;"), at(11));
}

#[test]
fn parsed_program() {
    let module = parse_file(&chars("library l; #[a(b, c)] pub const X: u8 = 1; abi T { fn f(); }")).unwrap();
    assert_eq!(
        module,
        Module {
            kind: ModuleKind::Library { name: chars("l") },
            items: vec![
                Annotated {
                    attribute_list: vec![attribute("a", &["b"], Some("c"))],
                    value: ItemKind::Const(ItemConst {
                        visibility: true,
                        name: chars("X"),
                        ty_opt: Some(chars("u8")),
                        expr: chars("1"),
                    }),
                },
                Annotated {
                    attribute_list: vec![],
                    value: ItemKind::Abi(ItemAbi {
                        name: chars("T"),
                        abi_items: vec![Annotated {
                            attribute_list: vec![],
                            value: FnSignature { text: chars("fn f()") },
                        }],
                    }),
                },
            ],
        }
    );
}

#[test]
fn parsed_struct_and_enum() {
    let module = parse_file(&chars("script; struct S { a : u8 , } pub enum E { B: (u8 , u8) }")).unwrap();
    assert_eq!(module.kind, ModuleKind::Script);
    assert_eq!(
        module.items[0].value,
        ItemKind::Struct(ItemStruct { visibility: false, name: chars("S"), fields: vec![field("a", "u8")] })
    );
    assert_eq!(
        module.items[1].value,
        ItemKind::Enum(ItemEnum { visibility: true, name: chars("E"), fields: vec![field("B", "(u8 , u8)")] })
    );
}

#[test]
fn written_program() {
    let module = Module {
        kind: ModuleKind::Predicate,
        items: vec![
            Annotated {
                attribute_list: vec![],
                value: ItemKind::Enum(ItemEnum {
                    visibility: false,
                    name: chars("E"),
                    fields: vec![field("Left", "u64"), field("R", "()")],
                }),
            },
            Annotated {
                attribute_list: vec![],
                value: ItemKind::Struct(ItemStruct {
                    visibility: true,
                    name: chars("S"),
                    fields: vec![field("a", "u8")],
                }),
            },
        ],
    };
    let mut out = String::from("// ");
    let mut formatter = Formatter::default();
    formatter.config.structures.enum_variant_align_threshold = 10;
    formatter.config.structures.struct_lit_single_line = false;
    Format::format(&module, &mut out, &mut formatter).unwrap();
    assert_eq!(
        out,
        "// predicate;\n\nenum E {\n    Left : u64,\n    R    : (),\n}\npub struct S {\n    a: u8,\n}"
    );
}

#[test]
fn formatting_attributes_twice_empties_them() {
    let once = format_default("contract; abi T { #[storage(read, write,)] fn f(); }");
    assert_eq!(once, "contract;\n\nabi T {\n    #[storage(read, writ)]\n    fn f();\n}");
    let twice = format_default(&once);
    assert_eq!(twice, "contract;\n\nabi T {\n    #[storage(read)]\n    fn f();\n}");
    let thrice = format_default(&twice);
    assert_eq!(thrice, "contract;\n\nabi T {\n    #[storage()]\n    fn f();\n}");
}

#[test]
fn formatting_twice_changes_nothing_more() {
    let sources = [
        "contract;\npub const TEST:u16=10;",
        "contract; struct Foo { barbazfoo: u64, baz: bool }",
        "contract; enum Color { Blue: (), Green: (), }",
        "contract; abi T { fn f(key: u64); fn g(); }",
    ];
    for source in sources {
        let once = format_default(source);
        let twice = format_default(&once);
        assert_eq!(once, twice);
    }
}
