use sway_tools::fmt::config::Config;
use sway_tools::fmt::formatter::Formatter;
use sway_tools::fmt::shape::Shape;

fn get_formatter(config: Config, shape: Shape) -> Formatter {
    Formatter { config, shape }
}

#[test]
fn test_const() {
    let sway_code_to_format = r#"contract;
pub const TEST:u16=10;"#;
    let correct_sway_code = r#"contract;

pub const TEST: u16 = 10;"#;
    let mut formatter = Formatter::default();
    let formatted_sway_code =
        Formatter::format(&mut formatter, sway_code_to_format).unwrap();
    assert!(correct_sway_code == formatted_sway_code)
}

#[test]
fn test_struct_single_line_alignment() {
    let sway_code_to_format = r#"contract;
pub struct Foo {
    bar: u64,
    baz: bool,
}
"#;
    let correct_sway_code = r#"contract;

pub struct Foo { bar: u64, baz: bool }"#;
    let mut config = Config::default();
    config.structures.struct_lit_single_line = true;
    config.structures.struct_field_align_threshold = 40;
    config.whitespace.max_width = 300;
    let mut formatter = get_formatter(config, Shape::default());
    let formatted_sway_code =
        Formatter::format(&mut formatter, sway_code_to_format).unwrap();
    assert!(correct_sway_code == formatted_sway_code)
}
#[test]
fn test_struct_multiline_line_alignment() {
    let sway_code_to_format = r#"contract;
pub struct Foo {
   barbazfoo: u64,
   baz  : bool,
}
"#;
    let correct_sway_code = r#"contract;

pub struct Foo {
    barbazfoo: u64,
    baz      : bool,
}"#;
    let mut config = Config::default();
    config.structures.struct_field_align_threshold = 40;
    let mut formatter = get_formatter(config, Shape::default());
    let formatted_sway_code =
        Formatter::format(&mut formatter, sway_code_to_format).unwrap();
    assert!(correct_sway_code == formatted_sway_code)
}
#[test]
fn test_struct_single_line() {
    let sway_code_to_format = r#"contract;
pub struct Foo {
    bar: u64,
    baz: bool,
}
"#;
    let correct_sway_code = r#"contract;

pub struct Foo { bar: u64, baz: bool }"#;
    let mut config = Config::default();
    config.structures.struct_lit_single_line = true;
    config.whitespace.max_width = 300;
    let mut formatter = get_formatter(config, Shape::default());
    let formatted_sway_code =
        Formatter::format(&mut formatter, sway_code_to_format).unwrap();
    assert!(correct_sway_code == formatted_sway_code)
}

#[test]
fn test_struct_multi_line() {
    let sway_code_to_format = r#"contract;
pub struct Foo {
    bar: u64,
    baz: bool,
}
"#;
    let correct_sway_code = r#"contract;

pub struct Foo {
    bar: u64,
    baz: bool,
}"#;
    let mut formatter = Formatter::default();
    let formatted_sway_code =
        Formatter::format(&mut formatter, sway_code_to_format).unwrap();
    assert!(correct_sway_code == formatted_sway_code)
}

#[test]
fn test_enum_without_variant_alignment() {
    let sway_code_to_format = r#"contract;

enum Color {
    Blue: (), Green: (),
            Red: (),
    Silver: (),
                    Grey: (), }
        "#;
    let correct_sway_code = r#"contract;

enum Color {
    Blue : (),
    Green : (),
    Red : (),
    Silver : (),
    Grey : (),
}"#;
    let mut formatter = Formatter::default();
    let formatted_sway_code =
        Formatter::format(&mut formatter, sway_code_to_format).unwrap();
    assert!(correct_sway_code == formatted_sway_code)
}
#[test]
fn test_enum_with_variant_alignment() {
    let sway_code_to_format = r#"contract;

enum Color {
    Blue: (), Green: (),
            Red: (),
    Silver: (),
                    Grey: (), }
        "#;
    let correct_sway_code = r#"contract;

enum Color {
    Blue   : (),
    Green  : (),
    Red    : (),
    Silver : (),
    Grey   : (),
}"#;

    // Creating a config with enum_variant_align_threshold that exceeds longest variant length
    let mut formatter = Formatter::default();
    formatter.config.structures.enum_variant_align_threshold = 20;

    let formatted_sway_code =
        Formatter::format(&mut formatter, sway_code_to_format).unwrap();
    assert!(correct_sway_code == formatted_sway_code)
}
#[test]
fn test_item_abi() {
    let sway_code_to_format = r#"contract;

abi StorageMapExample {
    #[storage(write,)]fn insert_into_map1(key: u64, value: u64);

fn hello(key: u64, value: u64);
}"#;
    let correct_sway_code = r#"contract;

abi StorageMapExample {
    #[storage(write)]
    fn insert_into_map1(key: u64, value: u64);

    fn hello(key: u64, value: u64);
}"#;
    let mut formatter = Formatter::default();
    let formatted_sway_code =
        Formatter::format(&mut formatter, sway_code_to_format).unwrap();
    assert!(correct_sway_code == formatted_sway_code)
}

#[test]
fn test_multi_items() {
    let sway_code_to_format = r#"contract;

pub const TEST: u16 = 10;
pub const TEST1: u16 = 10;"#;
    let correct_sway_code = r#"contract;

pub const TEST: u16 = 10;
pub const TEST1: u16 = 10;"#;

    let mut formatter = Formatter::default();
    let formatted_sway_code =
        Formatter::format(&mut formatter, sway_code_to_format).unwrap();
    assert!(correct_sway_code == formatted_sway_code)
}
