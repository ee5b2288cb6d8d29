//! A server's description, and its rendering for a terminal.
//!
//! A description is either text with inline codes, each an escape
//! character and one character that names a colour or style, or a
//! structured component. Rendering turns the codes into ANSI sequences
//! and lines two lines up the way the game's client does.

use vstd::prelude::*;
use vstd::string::{StrSliceExecFns, StringExecFns};
use crate::error::{Error, RenderFault};
use crate::text::{chars_of, find_first, find_last, spaces, spec_spaces};

verus! {

/// The character that starts an inline code.
pub const ESCAPE: char = '§';

/// What an inline code switches on.
#[derive(Debug, Clone, Copy, PartialEq, Eq, Structural)]
pub enum Style {
    /// A foreground colour, by red, green and blue.
    Color(u8, u8, u8),
    Bold,
    Strikethrough,
    Underline,
    Italic,
    /// Back to the terminal's own colours, all styles off.
    Reset,
}

/// A part of a structured description.
#[derive(Debug, Clone, PartialEq, Eq)]
pub struct SubComponent {
    pub text: String,
    pub color: Option<String>,
}

/// A server's description.
#[derive(Debug, Clone, PartialEq, Eq)]
pub enum ChatComponent {
    /// Text with inline codes.
    Legacy(String),
    /// A structured component: its own text, and parts that follow it.
    Modern { text: String, extra: Option<Vec<SubComponent>> },
}

/// What the character after an escape character stands for: one of
/// sixteen colours, a style, or nothing that can be shown.
pub open spec fn spec_style(code: char) -> Result<Style, RenderFault> {
    if code == '0' {
        Ok(Style::Color(0x00, 0x00, 0x00))
    } else if code == '1' {
        Ok(Style::Color(0x00, 0x00, 0xaa))
    } else if code == '2' {
        Ok(Style::Color(0x00, 0xaa, 0x00))
    } else if code == '3' {
        Ok(Style::Color(0x00, 0xaa, 0xaa))
    } else if code == '4' {
        Ok(Style::Color(0xaa, 0x00, 0x00))
    } else if code == '5' {
        Ok(Style::Color(0xaa, 0x00, 0xaa))
    } else if code == '6' {
        Ok(Style::Color(0xff, 0xaa, 0x00))
    } else if code == '7' {
        Ok(Style::Color(0xaa, 0xaa, 0xaa))
    } else if code == '8' {
        Ok(Style::Color(0x55, 0x55, 0x55))
    } else if code == '9' {
        Ok(Style::Color(0x55, 0x55, 0xff))
    } else if code == 'a' {
        Ok(Style::Color(0x55, 0xff, 0x55))
    } else if code == 'b' {
        Ok(Style::Color(0x55, 0xff, 0xff))
    } else if code == 'c' {
        Ok(Style::Color(0xff, 0x55, 0x55))
    } else if code == 'd' {
        Ok(Style::Color(0xff, 0x55, 0xff))
    } else if code == 'e' {
        Ok(Style::Color(0xff, 0xff, 0x55))
    } else if code == 'f' {
        Ok(Style::Color(0xff, 0xff, 0xff))
    } else if code == 'k' {
        Err(RenderFault::ObfuscatedStyle)
    } else if code == 'l' {
        Ok(Style::Bold)
    } else if code == 'm' {
        Ok(Style::Strikethrough)
    } else if code == 'n' {
        Ok(Style::Underline)
    } else if code == 'o' {
        Ok(Style::Italic)
    } else if code == 'r' {
        Ok(Style::Reset)
    } else {
        Err(RenderFault::UnknownCode)
    }
}

/// What termcolor's ANSI writer emits when `set_color` is called with a
/// fresh `ColorSpec` on which the foreground colour and the four styles
/// were set to these values.
pub uninterp spec fn ansi_set_color(
    fg: Option<(u8, u8, u8)>,
    bold: bool,
    italic: bool,
    underline: bool,
    strikethrough: bool,
) -> Seq<char>;

/// What `Regex::replace_all` of the regex crate makes of `text` for the
/// regular expression `pattern` and the replacement `with`: `None`
/// where `pattern` is no regular expression.
pub uninterp spec fn regex_replaced(pattern: Seq<char>, text: Seq<char>, with: Seq<char>)
    -> Option<Seq<char>>;

/// The ANSI sequence that switches `style` on.
pub open spec fn spec_sequence(style: Style) -> Seq<char> {
    match style {
        Style::Color(r, g, b) => ansi_set_color(Some((r, g, b)), false, false, false, false),
        Style::Bold => ansi_set_color(None, true, false, false, false),
        Style::Italic => ansi_set_color(None, false, true, false, false),
        Style::Underline => ansi_set_color(None, false, false, true, false),
        Style::Strikethrough => ansi_set_color(None, false, false, false, true),
        Style::Reset => ansi_set_color(None, false, false, false, false),
    }
}

/// `head` before a rendering that succeeded; a failure stays as it is.
pub open spec fn spec_after(head: Seq<char>, rest: Result<Seq<char>, Error>) -> Result<
    Seq<char>,
    Error,
> {
    match rest {
        Ok(tail) => Ok(head + tail),
        Err(e) => Err(e),
    }
}

/// The rendering of text with inline codes: every code gives way to the
/// sequence of its style, all other characters stay, and a reset ends
/// the text. The first code that cannot be shown fails the rendering.
pub open spec fn spec_render_legacy(text: Seq<char>) -> Result<Seq<char>, Error>
    decreases text.len(),
{
    if text.len() == 0 {
        Ok(spec_sequence(Style::Reset))
    } else if text[0] != ESCAPE {
        spec_after(seq![text[0]], spec_render_legacy(text.skip(1)))
    } else if text.len() == 1 {
        Err(Error::UnsupportedRender(RenderFault::DanglingEscape))
    } else {
        match spec_style(text[1]) {
            Err(fault) => Err(Error::UnsupportedRender(fault)),
            Ok(style) => spec_after(spec_sequence(style), spec_render_legacy(text.skip(2))),
        }
    }
}

/// The number of characters that a line shows: those that are left when
/// every escape character has been taken out together with the
/// character after it.
pub open spec fn spec_shown_width(line: Seq<char>) -> Option<nat> {
    match regex_replaced("§."@, line, ""@) {
        Some(shown) => Some(shown.len()),
        None => None,
    }
}

/// Two rendered lines, one above the other, the one that shows fewer
/// characters between spaces on both sides: half as many, rounded down,
/// as it falls short by.
pub open spec fn spec_centered(
    first: Seq<char>,
    second: Seq<char>,
    first_width: nat,
    second_width: nat,
) -> Seq<char> {
    if first_width < second_width {
        let pad = spec_spaces(((second_width - first_width) / 2) as nat);
        pad + first + pad + seq!['\n'] + second
    } else if first_width > second_width {
        let pad = spec_spaces(((first_width - second_width) / 2) as nat);
        first + seq!['\n'] + pad + second + pad
    } else {
        first + seq!['\n'] + second
    }
}

/// Whether `text` holds exactly one line break.
pub open spec fn spec_two_lines(text: Seq<char>) -> bool {
    text.index_of_first('\n') is Some && text.index_of_first('\n') == text.index_of_last('\n')
}

/// The rendering of two lines that show `first_width` and `second_width`
/// characters, centred; the first line that fails, fails it.
pub open spec fn spec_render_lines(
    first: Seq<char>,
    second: Seq<char>,
    first_width: nat,
    second_width: nat,
) -> Result<Seq<char>, Error> {
    match spec_render_legacy(first) {
        Err(e) => Err(e),
        Ok(upper) => match spec_render_legacy(second) {
            Err(e) => Err(e),
            Ok(lower) => Ok(spec_centered(upper, lower, first_width, second_width)),
        },
    }
}

/// The rendering of text with inline codes as a description: text of
/// exactly two lines is rendered line by line and centred, any other
/// text as it stands, and so is text of two lines of which one could
/// not be measured.
pub open spec fn spec_render_text(text: Seq<char>) -> Result<Seq<char>, Error> {
    if spec_two_lines(text) {
        let at = text.index_of_first('\n')->0;
        let first = text.take(at);
        let second = text.skip(at + 1);
        match (spec_shown_width(first), spec_shown_width(second)) {
            (Some(first_width), Some(second_width)) => spec_render_lines(
                first,
                second,
                first_width,
                second_width,
            ),
            _ => spec_render_legacy(text),
        }
    } else {
        spec_render_legacy(text)
    }
}

/// The rendering of a description. A structured component without parts
/// whose text holds an escape character is rendered as text with inline
/// codes; of any other structured component the text is shown as it is.
pub open spec fn spec_render_chat(chat: ChatComponent) -> Result<Seq<char>, Error> {
    match chat {
        ChatComponent::Legacy(text) => spec_render_text(text@),
        ChatComponent::Modern { text, extra } => if extra is None && text@.contains(ESCAPE) {
            spec_render_text(text@)
        } else {
            Ok(text@)
        },
    }
}

/// `set_color` of termcolor's `WriteColor`, on an ANSI `Buffer`, with a
/// fresh `ColorSpec` that got the given foreground colour and styles.
/// The contract gives what was written the name `ansi_set_color`; it
/// claims nothing else.
#[verifier::external_body]
fn set_color_sequence(
    fg: Option<(u8, u8, u8)>,
    bold: bool,
    italic: bool,
    underline: bool,
    strikethrough: bool,
) -> (out: String)
    ensures
        out@ == ansi_set_color(fg, bold, italic, underline, strikethrough),
{
    let mut spec = termcolor::ColorSpec::new();
    spec.set_fg(fg.map(|c| termcolor::Color::Rgb(c.0, c.1, c.2)));
    spec.set_bold(bold).set_italic(italic).set_underline(underline);
    spec.set_strikethrough(strikethrough);
    let mut buffer = termcolor::Buffer::ansi();
    let _ = termcolor::WriteColor::set_color(&mut buffer, &spec);
    String::from_utf8_lossy(buffer.as_slice()).into_owned()
}

/// `Regex::new` and `Regex::replace_all` of the regex crate. The
/// contract gives the result the name `regex_replaced`, `None` standing
/// for a pattern that `Regex::new` refused; it claims nothing else.
#[verifier::external_body]
fn regex_replace_all(pattern: &str, text: &str, with: &str) -> (res: Option<String>)
    ensures
        match res {
            Some(replaced) => regex_replaced(pattern@, text@, with@) == Some(replaced@),
            None => regex_replaced(pattern@, text@, with@) is None,
        },
{
    match regex::Regex::new(pattern) {
        Ok(re) => Some(re.replace_all(text, with).into_owned()),
        Err(_) => None,
    }
}

/// What the character after an escape character stands for.
pub fn style_of(code: char) -> (res: Result<Style, RenderFault>)
    ensures
        res == spec_style(code),
{
    if code == '0' {
        Ok(Style::Color(0x00, 0x00, 0x00))
    } else if code == '1' {
        Ok(Style::Color(0x00, 0x00, 0xaa))
    } else if code == '2' {
        Ok(Style::Color(0x00, 0xaa, 0x00))
    } else if code == '3' {
        Ok(Style::Color(0x00, 0xaa, 0xaa))
    } else if code == '4' {
        Ok(Style::Color(0xaa, 0x00, 0x00))
    } else if code == '5' {
        Ok(Style::Color(0xaa, 0x00, 0xaa))
    } else if code == '6' {
        Ok(Style::Color(0xff, 0xaa, 0x00))
    } else if code == '7' {
        Ok(Style::Color(0xaa, 0xaa, 0xaa))
    } else if code == '8' {
        Ok(Style::Color(0x55, 0x55, 0x55))
    } else if code == '9' {
        Ok(Style::Color(0x55, 0x55, 0xff))
    } else if code == 'a' {
        Ok(Style::Color(0x55, 0xff, 0x55))
    } else if code == 'b' {
        Ok(Style::Color(0x55, 0xff, 0xff))
    } else if code == 'c' {
        Ok(Style::Color(0xff, 0x55, 0x55))
    } else if code == 'd' {
        Ok(Style::Color(0xff, 0x55, 0xff))
    } else if code == 'e' {
        Ok(Style::Color(0xff, 0xff, 0x55))
    } else if code == 'f' {
        Ok(Style::Color(0xff, 0xff, 0xff))
    } else if code == 'k' {
        Err(RenderFault::ObfuscatedStyle)
    } else if code == 'l' {
        Ok(Style::Bold)
    } else if code == 'm' {
        Ok(Style::Strikethrough)
    } else if code == 'n' {
        Ok(Style::Underline)
    } else if code == 'o' {
        Ok(Style::Italic)
    } else if code == 'r' {
        Ok(Style::Reset)
    } else {
        Err(RenderFault::UnknownCode)
    }
}

/// The ANSI sequence that switches `style` on.
pub fn sequence_of(style: Style) -> (out: String)
    ensures
        out@ == spec_sequence(style),
{
    match style {
        Style::Color(r, g, b) => set_color_sequence(Some((r, g, b)), false, false, false, false),
        Style::Bold => set_color_sequence(None, true, false, false, false),
        Style::Italic => set_color_sequence(None, false, true, false, false),
        Style::Underline => set_color_sequence(None, false, false, true, false),
        Style::Strikethrough => set_color_sequence(None, false, false, false, true),
        Style::Reset => set_color_sequence(None, false, false, false, false),
    }
}

/// Characters before the first escape character stay as they are when
/// text is rendered.
proof fn lemma_render_plain(text: Seq<char>, upto: int)
    requires
        0 <= upto <= text.len(),
        forall|j: int| 0 <= j < upto ==> text[j] != ESCAPE,
    ensures
        spec_render_legacy(text) == spec_after(text.take(upto), spec_render_legacy(text.skip(upto))),
    decreases upto,
{
    if upto == 0 {
        assert(text.skip(0) =~= text);
        assert(text.take(0) =~= Seq::<char>::empty());
        match spec_render_legacy(text) {
            Ok(tail) => {
                assert(Seq::<char>::empty() + tail =~= tail);
            },
            Err(_) => {},
        }
    } else {
        let rest = text.skip(1);
        assert forall|j: int| 0 <= j < upto - 1 implies rest[j] != ESCAPE by {
            assert(rest[j] == text[j + 1]);
        }
        lemma_render_plain(rest, upto - 1);
        assert(rest.skip(upto - 1) =~= text.skip(upto));
        match spec_render_legacy(text.skip(upto)) {
            Ok(tail) => {
                assert(seq![text[0]] + (rest.take(upto - 1) + tail) =~= text.take(upto) + tail);
            },
            Err(_) => {},
        }
    }
}

/// Renders text with inline codes.
pub fn render_legacy(text: &str) -> (res: Result<String, Error>)
    ensures
        match res {
            Ok(out) => spec_render_legacy(text@) == Ok::<Seq<char>, Error>(out@),
            Err(e) => spec_render_legacy(text@) == Err::<Seq<char>, Error>(e),
        },
{
    let chars = chars_of(text);
    let n: usize = chars.len();
    let mut out = String::new();
    let mut start: usize = 0;
    let mut i: usize = 0;
    proof {
        assert(text@.skip(0) =~= text@);
        match spec_render_legacy(text@) {
            Ok(tail) => {
                assert(Seq::<char>::empty() + tail =~= tail);
            },
            Err(_) => {},
        }
    }
    while i < n
        invariant
            chars@ == text@,
            n == chars.len(),
            start <= i <= n,
            forall|j: int| start <= j < i ==> text@[j] != ESCAPE,
            spec_render_legacy(text@) == spec_after(out@, spec_render_legacy(text@.skip(start as int))),
        decreases n - i,
    {
        if chars[i] != ESCAPE {
            i += 1;
            continue;
        }
        let ghost pending = text@.skip(start as int);
        let ghost plain = text@.subrange(start as int, i as int);
        let ghost here = text@.skip(i as int);
        proof {
            assert forall|j: int| 0 <= j < i - start implies pending[j] != ESCAPE by {
                assert(pending[j] == text@[start + j]);
            }
            lemma_render_plain(pending, i - start);
            assert(pending.take(i - start) =~= plain);
            assert(pending.skip(i - start) =~= here);
            assert(here[0] == ESCAPE);
        }
        if i + 1 == n {
            return Err(Error::UnsupportedRender(RenderFault::DanglingEscape));
        }
        proof {
            assert(here[1] == text@[i + 1]);
            assert(here.skip(2) =~= text@.skip(i + 2));
        }
        let style = match style_of(chars[i + 1]) {
            Ok(style) => style,
            Err(fault) => { return Err(Error::UnsupportedRender(fault)); },
        };
        let ghost before = out@;
        out.append(text.substring_char(start, i));
        let sequence = sequence_of(style);
        out.append(sequence.as_str());
        proof {
            match spec_render_legacy(text@.skip(i + 2)) {
                Ok(tail) => {
                    assert(before + (plain + (spec_sequence(style) + tail)) =~= out@ + tail);
                },
                Err(_) => {},
            }
        }
        i += 2;
        start = i;
    }
    let ghost pending = text@.skip(start as int);
    proof {
        assert forall|j: int| 0 <= j < n - start implies pending[j] != ESCAPE by {
            assert(pending[j] == text@[start + j]);
        }
        lemma_render_plain(pending, n - start);
        assert(pending.take(n - start) =~= text@.subrange(start as int, n as int));
        assert(pending.skip(n - start) =~= Seq::<char>::empty());
    }
    let ghost before = out@;
    out.append(text.substring_char(start, n));
    let reset = sequence_of(Style::Reset);
    out.append(reset.as_str());
    assert(before + (text@.subrange(start as int, n as int) + spec_sequence(Style::Reset))
        =~= out@);
    Ok(out)
}

/// Sets two rendered lines one above the other, the one that shows fewer
/// characters between spaces.
pub fn center(first: &str, second: &str, first_width: usize, second_width: usize) -> (out: String)
    ensures
        out@ == spec_centered(first@, second@, first_width as nat, second_width as nat),
{
    proof {
        reveal_strlit("\n");
    }
    let mut out = String::new();
    if first_width < second_width {
        let pad = spaces((second_width - first_width) / 2);
        out.append(pad.as_str());
        out.append(first);
        out.append(pad.as_str());
        out.append("\n");
        out.append(second);
        assert(out@ =~= spec_centered(
            first@,
            second@,
            first_width as nat,
            second_width as nat,
        ));
    } else if first_width > second_width {
        let pad = spaces((first_width - second_width) / 2);
        out.append(first);
        out.append("\n");
        out.append(pad.as_str());
        out.append(second);
        out.append(pad.as_str());
        assert(out@ =~= spec_centered(
            first@,
            second@,
            first_width as nat,
            second_width as nat,
        ));
    } else {
        out.append(first);
        out.append("\n");
        out.append(second);
        assert(out@ =~= spec_centered(
            first@,
            second@,
            first_width as nat,
            second_width as nat,
        ));
    }
    out
}

/// Renders two lines and centres them by the widths given: the numbers
/// of characters that the lines show.
pub fn render_lines(first: &str, second: &str, first_width: usize, second_width: usize) -> (res:
    Result<String, Error>)
    ensures
        match res {
            Ok(out) => spec_render_lines(
                first@,
                second@,
                first_width as nat,
                second_width as nat,
            ) == Ok::<Seq<char>, Error>(out@),
            Err(e) => spec_render_lines(
                first@,
                second@,
                first_width as nat,
                second_width as nat,
            ) == Err::<Seq<char>, Error>(e),
        },
{
    let upper = match render_legacy(first) {
        Ok(upper) => upper,
        Err(e) => { return Err(e); },
    };
    let lower = match render_legacy(second) {
        Ok(lower) => lower,
        Err(e) => { return Err(e); },
    };
    Ok(center(upper.as_str(), lower.as_str(), first_width, second_width))
}

/// The number of characters that a line shows, or `None` where the
/// regex crate would not measure it.
pub fn shown_width(line: &str) -> (res: Option<usize>)
    ensures
        match res {
            Some(width) => spec_shown_width(line@) == Some(width as nat),
            None => spec_shown_width(line@) is None,
        },
{
    match regex_replace_all("§.", line, "") {
        Some(shown) => Some(shown.as_str().unicode_len()),
        None => None,
    }
}

/// Renders text with inline codes as a description.
pub fn render_text(text: &str) -> (res: Result<String, Error>)
    ensures
        match res {
            Ok(out) => spec_render_text(text@) == Ok::<Seq<char>, Error>(out@),
            Err(e) => spec_render_text(text@) == Err::<Seq<char>, Error>(e),
        },
{
    let chars = chars_of(text);
    let first_break = find_first(chars.as_slice(), '\n');
    let last_break = find_last(chars.as_slice(), '\n');
    match (first_break, last_break) {
        (Some(at), Some(last)) => {
            if at == last {
                let first = text.substring_char(0, at);
                let second = text.substring_char(at + 1, chars.len());
                assert(first@ =~= text@.take(at as int));
                assert(second@ =~= text@.skip(at + 1));
                match (shown_width(first), shown_width(second)) {
                    (Some(first_width), Some(second_width)) => render_lines(
                        first,
                        second,
                        first_width,
                        second_width,
                    ),
                    _ => render_legacy(text),
                }
            } else {
                render_legacy(text)
            }
        },
        _ => render_legacy(text),
    }
}

/// Renders a description.
pub fn render_chat(chat: &ChatComponent) -> (res: Result<String, Error>)
    ensures
        match res {
            Ok(out) => spec_render_chat(*chat) == Ok::<Seq<char>, Error>(out@),
            Err(e) => spec_render_chat(*chat) == Err::<Seq<char>, Error>(e),
        },
{
    match chat {
        ChatComponent::Legacy(text) => render_text(text.as_str()),
        ChatComponent::Modern { text, extra } => {
            let chars = chars_of(text.as_str());
            let escape = find_first(chars.as_slice(), ESCAPE);
            proof {
                text@.index_of_first_ensures(ESCAPE);
            }
            if extra.is_none() && escape.is_some() {
                render_text(text.as_str())
            } else {
                Ok(text.clone())
            }
        },
    }
}

} // verus!
