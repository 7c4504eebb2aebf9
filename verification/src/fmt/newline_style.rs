//! Line endings of the formatted text.

use crate::fmt::config::NewlineStyle;
use crate::fmt::text::{chars_of, push_char};
use vstd::prelude::*;
use vstd::string::StringExecFns;

verus! {

/// The position of the first line feed of `text` at `pos` or later.
pub open spec fn first_line_feed(text: Seq<char>, pos: int) -> Option<int>
    decreases text.len() - pos,
{
    if pos < 0 || pos >= text.len() {
        None
    } else if text[pos] == '\n' {
        Some(pos)
    } else {
        first_line_feed(text, pos + 1)
    }
}

/// Whether lines are to end in `\r\n`: where the style says so, and where it
/// leaves the choice to the text and the first line of `raw` ends so.
pub open spec fn ends_lines_like_windows(style: NewlineStyle, raw: Seq<char>) -> bool {
    match style {
        NewlineStyle::Windows => true,
        NewlineStyle::Unix => false,
        NewlineStyle::Auto => match first_line_feed(raw, 0) {
            Some(at) => at >= 1 && raw[at - 1] == '\r',
            None => false,
        },
    }
}

/// Whether the character at `at` is a carriage return before a line feed.
pub open spec fn is_return_before_feed(text: Seq<char>, at: int) -> bool {
    0 <= at && at + 1 < text.len() && text[at] == '\r' && text[at + 1] == '\n'
}

/// The first `n` characters of `text` with every line ending turned into
/// `\r\n`: a line feed becomes `\r\n`, and a carriage return before a line
/// feed is dropped.
pub open spec fn windows_newlines(text: Seq<char>, n: nat) -> Seq<char>
    decreases n,
{
    if n == 0 || n > text.len() {
        Seq::empty()
    } else {
        let head = windows_newlines(text, (n - 1) as nat);
        if text[n - 1] == '\n' {
            head.push('\r').push('\n')
        } else if is_return_before_feed(text, n - 1) {
            head
        } else {
            head.push(text[n - 1])
        }
    }
}

/// The first `n` characters of `text` with every `\r\n` turned into `\n`: a
/// carriage return before a line feed is dropped.
pub open spec fn unix_newlines(text: Seq<char>, n: nat) -> Seq<char>
    decreases n,
{
    if n == 0 || n > text.len() {
        Seq::empty()
    } else {
        let head = unix_newlines(text, (n - 1) as nat);
        if is_return_before_feed(text, n - 1) {
            head
        } else {
            head.push(text[n - 1])
        }
    }
}

/// `text` with the line endings that `style` asks for, `raw` deciding where
/// the style leaves the choice to the text.
pub open spec fn with_newline_style(style: NewlineStyle, text: Seq<char>, raw: Seq<char>) -> Seq<
    char,
> {
    if ends_lines_like_windows(style, raw) {
        windows_newlines(text, text.len())
    } else {
        unix_newlines(text, text.len())
    }
}

/// Tells from the first line of the text how its lines end.
fn auto_detect_windows(raw: &Vec<char>) -> (windows: bool)
    ensures
        windows == ends_lines_like_windows(NewlineStyle::Auto, raw@),
{
    let mut i: usize = 0;
    while i < raw.len()
        invariant
            i <= raw.len(),
            first_line_feed(raw@, 0) == first_line_feed(raw@, i as int),
        decreases raw.len() - i,
    {
        if raw[i] == '\n' {
            return i >= 1 && raw[i - 1] == '\r';
        }
        i += 1;
    }
    false
}

/// Apply this newline style to the formatted text. When the style is set
/// to `Auto`, the `raw_input_text` is used to detect the existing line
/// endings.
pub fn apply_newline_style(
    newline_style: NewlineStyle,
    formatted_text: &mut String,
    raw_input_text: &str,
)
    ensures
        final(formatted_text)@ == with_newline_style(
            newline_style,
            old(formatted_text)@,
            raw_input_text@,
        ),
{
    let windows = match newline_style {
        NewlineStyle::Windows => true,
        NewlineStyle::Unix => false,
        NewlineStyle::Auto => {
            let raw = chars_of(raw_input_text);
            auto_detect_windows(&raw)
        },
    };
    let text = chars_of(formatted_text.as_str());
    let mut transformed = String::new();
    let mut i: usize = 0;
    while i < text.len()
        invariant
            i <= text.len(),
            transformed@ == if windows {
                windows_newlines(text@, i as nat)
            } else {
                unix_newlines(text@, i as nat)
            },
        decreases text.len() - i,
    {
        let current_char = text[i];
        if windows && current_char == '\n' {
            transformed.append("\r\n");
            proof {
                reveal_strlit("\r\n");
                assert("\r\n"@ =~= seq!['\r', '\n']);
                assert(transformed@ =~= windows_newlines(text@, i as nat).push('\r').push('\n'));
            }
        } else if current_char == '\r' && i + 1 < text.len() && text[i + 1] == '\n' {
        } else {
            push_char(&mut transformed, current_char);
        }
        i += 1;
    }
    *formatted_text = transformed;
}

} // verus!
