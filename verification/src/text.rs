//! Styled text, as the screens are built from it, and numbers written out.
use vstd::prelude::*;

use crate::chars::string_from_chars;
use crate::util::NotifColor;

verus! {

#[derive(Clone, Copy, Debug)]
pub enum Color {
    Black,
    Red,
    Green,
    LightGreen,
    Yellow,
    Blue,
    Purple,
    Magenta,
    White,
    Gray,
    DarkGrey,
    BrightWhite,
}

#[derive(Clone, Copy, Debug)]
pub struct Style {
    pub fg: Option<Color>,
    pub bg: Option<Color>,
    pub bold: bool,
    pub italic: bool,
    pub underline: bool,
    pub strikethrough: bool,
    pub reverse: bool,
    pub dim: bool,
}

/// A piece of text in one style.
pub struct Span {
    pub text: String,
    pub style: Style,
}

pub open spec fn plain() -> Style {
    Style { fg: None, bg: None, bold: false, italic: false, underline: false, strikethrough: false, reverse: false, dim: false }
}

pub open spec fn with_fg(c: Color) -> Style {
    Style { fg: Some(c), ..plain() }
}

/// Text in `fg` on a `bg` background.
pub open spec fn badge(bg: Color, fg: Color) -> Style {
    Style { fg: Some(fg), bg: Some(bg), ..plain() }
}

pub fn plain_style() -> (r: Style)
    ensures
        r == plain(),
{
    Style { fg: None, bg: None, bold: false, italic: false, underline: false, strikethrough: false, reverse: false, dim: false }
}

pub fn fg_style(c: Color) -> (r: Style)
    ensures
        r == with_fg(c),
{
    Style { fg: Some(c), ..plain_style() }
}

pub fn badge_style(bg: Color, fg: Color) -> (r: Style)
    ensures
        r == badge(bg, fg),
{
    Style { fg: Some(fg), bg: Some(bg), ..plain_style() }
}

/// A span as plain values: its characters and its style.
pub open spec fn span_view(s: Span) -> (Seq<char>, Style) {
    (s.text@, s.style)
}

pub open spec fn line_view(line: Seq<Span>) -> Seq<(Seq<char>, Style)> {
    line.map_values(|s: Span| span_view(s))
}

/// A span of `text` in `style`.
pub fn span(text: &str, style: Style) -> (r: Span)
    ensures
        span_view(r) == (text@, style),
{
    Span { text: String::from_str(text), style }
}

/// A span of `text` in `style`, taking the string.
pub fn span_of(text: String, style: Style) -> (r: Span)
    ensures
        span_view(r) == (text@, style),
{
    Span { text, style }
}

/// The color in which a notification target is shown.
pub open spec fn notif_color(c: NotifColor) -> Color {
    match c {
        NotifColor::Purple => Color::Purple,
        NotifColor::Green => Color::Green,
        NotifColor::Red => Color::Red,
        NotifColor::White => Color::White,
        NotifColor::Yellow => Color::Yellow,
        NotifColor::Blue => Color::Blue,
    }
}

pub fn from_notif_color(c: NotifColor) -> (r: Color)
    ensures
        r == notif_color(c),
{
    match c {
        NotifColor::Purple => Color::Purple,
        NotifColor::Green => Color::Green,
        NotifColor::Red => Color::Red,
        NotifColor::White => Color::White,
        NotifColor::Yellow => Color::Yellow,
        NotifColor::Blue => Color::Blue,
    }
}

/// The decimal digit for `d`, which is below ten.
pub open spec fn digit(d: nat) -> char {
    if d == 0 { '0' }
    else if d == 1 { '1' }
    else if d == 2 { '2' }
    else if d == 3 { '3' }
    else if d == 4 { '4' }
    else if d == 5 { '5' }
    else if d == 6 { '6' }
    else if d == 7 { '7' }
    else if d == 8 { '8' }
    else { '9' }
}

/// `n` written in decimal, without leading zeros.
pub open spec fn decimal(n: nat) -> Seq<char>
    decreases n,
{
    if n < 10 {
        seq![digit(n)]
    } else {
        decimal(n / 10).push(digit(n % 10))
    }
}

fn digit_char(d: usize) -> (c: char)
    requires
        d < 10,
    ensures
        c == digit(d as nat),
{
    if d == 0 { '0' }
    else if d == 1 { '1' }
    else if d == 2 { '2' }
    else if d == 3 { '3' }
    else if d == 4 { '4' }
    else if d == 5 { '5' }
    else if d == 6 { '6' }
    else if d == 7 { '7' }
    else if d == 8 { '8' }
    else { '9' }
}

fn push_decimal(out: &mut Vec<char>, n: usize)
    ensures
        final(out)@ == old(out)@ + decimal(n as nat),
    decreases n,
{
    if n >= 10 {
        push_decimal(out, n / 10);
    }
    out.push(digit_char(n % 10));
    assert(out@ =~= old(out)@ + decimal(n as nat));
}

/// `n` written in decimal.
pub fn decimal_string(n: usize) -> (r: String)
    ensures
        r@ == decimal(n as nat),
{
    let mut digits: Vec<char> = Vec::new();
    push_decimal(&mut digits, n);
    assert(digits@ =~= decimal(n as nat));
    string_from_chars(&digits)
}

} // verus!
