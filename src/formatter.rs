//! Decoration of matched lines: an icon, then the line in the rule's color.
use vstd::prelude::*;
use crate::text::{lower_of, lowercase, occurs_in, same_text};

verus! {

#[verifier::external_type_specification]
pub struct ExColor(colored::Color);

/// The display styles that a rule's color name can select.
#[derive(Debug, Clone, Copy, PartialEq, Eq, Structural)]
pub enum Shade {
    Red,
    BoldRed,
    Green,
    Yellow,
    Blue,
    Magenta,
    Cyan,
    White,
    Black,
}

/// The style that a lower-case color name selects, if it is one of the
/// recognized names.
pub open spec fn shade_named(name: Seq<char>) -> Option<Shade> {
    if name == "red"@ {
        Some(Shade::Red)
    } else if name == "bold red"@ || name == "bold-red"@ {
        Some(Shade::BoldRed)
    } else if name == "green"@ {
        Some(Shade::Green)
    } else if name == "yellow"@ {
        Some(Shade::Yellow)
    } else if name == "blue"@ {
        Some(Shade::Blue)
    } else if name == "magenta"@ {
        Some(Shade::Magenta)
    } else if name == "cyan"@ {
        Some(Shade::Cyan)
    } else if name == "white"@ {
        Some(Shade::White)
    } else if name == "black"@ {
        Some(Shade::Black)
    } else {
        None
    }
}

/// The terminal sequence that ends a styled run of text.
pub open spec fn ansi_reset() -> Seq<char> {
    seq!['\u{1b}', '[', '0', 'm']
}

/// `out` shows `text`, either as it is (when the terminal gets no colors)
/// or between a style sequence and the reset sequence. A reset sequence
/// inside `text` may be followed by the style again.
pub open spec fn is_painting_of(out: Seq<char>, text: Seq<char>) -> bool {
    out == text || exists|style: Seq<char>, inner: Seq<char>|
        #![trigger style + inner]
        out == style + inner + ansi_reset() && (!occurs_in(ansi_reset(), text) ==> inner == text)
}

/// `body` shows `line` as a color named `color` asks: painted when the name
/// is recognized, unchanged when it is not.
pub open spec fn shows_in_color(body: Seq<char>, line: Seq<char>, color: Seq<char>) -> bool {
    match shade_named(lower_of(color)) {
        Some(_) => is_painting_of(body, line),
        None => body == line,
    }
}

/// `out` is `icon`, a space, and `line` shown in the color named `color`.
pub open spec fn is_decoration(out: Seq<char>, line: Seq<char>, color: Seq<char>, icon: Seq<char>) -> bool {
    let n = icon.len() + 1int;
    &&& out.len() >= n
    &&& out.subrange(0, n) == icon.push(' ')
    &&& shows_in_color(out.subrange(n, out.len() as int), line, color)
}

/// Relies on `colored::Colorize::color` and the `Display` of
/// `colored::ColoredString`: the text as it is, or wrapped in a style
/// sequence and the reset sequence.
#[verifier::external_body]
fn paint(line: &str, c: colored::Color) -> (r: String)
    ensures
        is_painting_of(r@, line@),
{
    colored::Colorize::color(line, c).to_string()
}

/// Relies on `colored::Colorize::color`, `colored::Colorize::bold` and the
/// `Display` of `colored::ColoredString`: the text as it is, or wrapped in
/// a style sequence and the reset sequence.
#[verifier::external_body]
fn paint_bold(line: &str, c: colored::Color) -> (r: String)
    ensures
        is_painting_of(r@, line@),
{
    colored::Colorize::bold(colored::Colorize::color(line, c)).to_string()
}

/// The style selected by a lower-case color name, or `None` for a name
/// that is not recognized.
pub fn shade_of(lowered: &str) -> (r: Option<Shade>)
    ensures
        r == shade_named(lowered@),
{
    if same_text(lowered, "red") {
        Some(Shade::Red)
    } else if same_text(lowered, "bold red") || same_text(lowered, "bold-red") {
        Some(Shade::BoldRed)
    } else if same_text(lowered, "green") {
        Some(Shade::Green)
    } else if same_text(lowered, "yellow") {
        Some(Shade::Yellow)
    } else if same_text(lowered, "blue") {
        Some(Shade::Blue)
    } else if same_text(lowered, "magenta") {
        Some(Shade::Magenta)
    } else if same_text(lowered, "cyan") {
        Some(Shade::Cyan)
    } else if same_text(lowered, "white") {
        Some(Shade::White)
    } else if same_text(lowered, "black") {
        Some(Shade::Black)
    } else {
        None
    }
}

/// The line rendered in a style.
fn paint_in(line: &str, shade: Shade) -> (r: String)
    ensures
        is_painting_of(r@, line@),
{
    match shade {
        Shade::Red => paint(line, colored::Color::Red),
        Shade::BoldRed => paint_bold(line, colored::Color::Red),
        Shade::Green => paint(line, colored::Color::Green),
        Shade::Yellow => paint(line, colored::Color::Yellow),
        Shade::Blue => paint(line, colored::Color::Blue),
        Shade::Magenta => paint(line, colored::Color::Magenta),
        Shade::Cyan => paint(line, colored::Color::Cyan),
        Shade::White => paint(line, colored::Color::White),
        Shade::Black => paint(line, colored::Color::Black),
    }
}

/// `icon`, a space, and `body`.
pub fn prefix_icon(icon: &str, body: &str) -> (r: String)
    ensures
        r@ == icon@.push(' ') + body@,
{
    let mut out = String::from_str(icon);
    out.append(" ");
    out.append(body);
    proof {
        reveal_strlit(" ");
    }
    assert(out@ =~= icon@.push(' ') + body@);
    out
}

/// Formats a log line with the named color and the icon: `"{icon} {line}"`,
/// the line painted when the color name (in any case) is recognized, and
/// unstyled when it is not.
pub fn format_line(original_line: &str, color_name: &str, icon: &str) -> (r: String)
    ensures
        is_decoration(r@, original_line@, color_name@, icon@),
{
    let lowered = lowercase(color_name);
    let shade = shade_of(lowered.as_str());
    let body = match shade {
        Some(s) => paint_in(original_line, s),
        None => String::from_str(original_line),
    };
    let r = prefix_icon(icon, body.as_str());
    assert(r@.subrange(0, icon@.len() + 1int) =~= icon@.push(' '));
    assert(r@.subrange(icon@.len() + 1int, r@.len() as int) =~= body@);
    r
}

} // verus!
