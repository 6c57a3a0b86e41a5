//! The escape and reset sequences, as constants and as their mathematical model.
use vstd::prelude::*;

verus! {

/// Clears every attribute.
pub const RESET: &'static str = "\x1b[0m";
/// Clears bold (normal intensity).
pub const RESET_BOLD: &'static str = "\x1b[22m";
/// Clears italic.
pub const RESET_ITALIC: &'static str = "\x1b[23m";

pub const BOLD: &'static str = "\x1b[1m";
pub const ITALIC: &'static str = "\x1b[3m";

pub const BLACK: &'static str = "\x1b[30m";
pub const RED: &'static str = "\x1b[31m";
pub const GREEN: &'static str = "\x1b[32m";
pub const YELLOW: &'static str = "\x1b[33m";
pub const BLUE: &'static str = "\x1b[34m";
pub const MAGENTA: &'static str = "\x1b[35m";
pub const CYAN: &'static str = "\x1b[36m";
pub const WHITE: &'static str = "\x1b[37m";

pub const BRIGHT_BLACK: &'static str = "\x1b[90m";
pub const BRIGHT_RED: &'static str = "\x1b[91m";
pub const BRIGHT_GREEN: &'static str = "\x1b[92m";
pub const BRIGHT_YELLOW: &'static str = "\x1b[93m";
pub const BRIGHT_BLUE: &'static str = "\x1b[94m";
pub const BRIGHT_MAGENTA: &'static str = "\x1b[95m";
pub const BRIGHT_CYAN: &'static str = "\x1b[96m";
pub const BRIGHT_WHITE: &'static str = "\x1b[97m";

pub const BG_BLACK: &'static str = "\x1b[40m";
pub const BG_RED: &'static str = "\x1b[41m";
pub const BG_GREEN: &'static str = "\x1b[42m";
pub const BG_YELLOW: &'static str = "\x1b[43m";
pub const BG_BLUE: &'static str = "\x1b[44m";
pub const BG_MAGENTA: &'static str = "\x1b[45m";
pub const BG_CYAN: &'static str = "\x1b[46m";
pub const BG_WHITE: &'static str = "\x1b[47m";

pub const BG_BRIGHT_BLACK: &'static str = "\x1b[100m";
pub const BG_BRIGHT_RED: &'static str = "\x1b[101m";
pub const BG_BRIGHT_GREEN: &'static str = "\x1b[102m";
pub const BG_BRIGHT_YELLOW: &'static str = "\x1b[103m";
pub const BG_BRIGHT_BLUE: &'static str = "\x1b[104m";
pub const BG_BRIGHT_MAGENTA: &'static str = "\x1b[105m";
pub const BG_BRIGHT_CYAN: &'static str = "\x1b[106m";
pub const BG_BRIGHT_WHITE: &'static str = "\x1b[107m";

pub const ORANGE: &'static str = "\x1b[38;5;208m";
pub const INDIGO: &'static str = "\x1b[38;5;63m";
pub const VIOLET: &'static str = "\x1b[38;5;129m";

/// One of the eight basic terminal colours, in SGR order.
#[derive(Clone, Copy, Debug, PartialEq, Eq, Structural)]
pub enum Hue {
    Black,
    Red,
    Green,
    Yellow,
    Blue,
    Magenta,
    Cyan,
    White,
}

/// A styling operation: what is put before the text and what closes it.
#[derive(Clone, Copy, Debug, PartialEq, Eq, Structural)]
pub enum Style {
    Bold,
    Italic,
    /// Standard foreground colour.
    Fg(Hue),
    /// Bright foreground colour.
    BrightFg(Hue),
    /// Standard background colour.
    Bg(Hue),
    /// Bright background colour.
    BrightBg(Hue),
    /// Foreground from the 256-colour palette.
    Fixed(u8),
    /// 24-bit foreground colour.
    Rgb(u8, u8, u8),
    /// Background from the 256-colour palette.
    BgFixed(u8),
    /// 24-bit background colour.
    BgRgb(u8, u8, u8),
}

/// The final digit of a basic colour's SGR parameter.
pub open spec fn hue_digit(h: Hue) -> char {
    match h {
        Hue::Black => '0',
        Hue::Red => '1',
        Hue::Green => '2',
        Hue::Yellow => '3',
        Hue::Blue => '4',
        Hue::Magenta => '5',
        Hue::Cyan => '6',
        Hue::White => '7',
    }
}

/// The ASCII digit for `d < 10`.
pub open spec fn digit_char(d: nat) -> char {
    ((d + 48) as u8) as char
}

/// `n` written in decimal, without leading zeros.
pub open spec fn decimal(n: nat) -> Seq<char>
    decreases n,
{
    if n < 10 {
        seq![digit_char(n)]
    } else {
        decimal(n / 10).push(digit_char(n % 10))
    }
}

/// A Select Graphic Rendition sequence: `ESC [ params m`.
pub open spec fn sgr(params: Seq<char>) -> Seq<char> {
    seq!['\x1b', '['] + params + seq!['m']
}

/// The parameters `38;5;n` (foreground) or `48;5;n` (background), led by `lead`.
pub open spec fn palette_params(lead: char, n: u8) -> Seq<char> {
    seq![lead, '8', ';', '5', ';'] + decimal(n as nat)
}

/// The parameters `38;2;r;g;b` (foreground) or `48;2;r;g;b` (background), led by `lead`.
pub open spec fn rgb_params(lead: char, r: u8, g: u8, b: u8) -> Seq<char> {
    seq![lead, '8', ';', '2', ';'] + decimal(r as nat) + seq![';'] + decimal(g as nat) + seq![';']
        + decimal(b as nat)
}

/// The sequence that switches a style on.
pub open spec fn escape_code(s: Style) -> Seq<char> {
    match s {
        Style::Bold => sgr(seq!['1']),
        Style::Italic => sgr(seq!['3']),
        Style::Fg(h) => sgr(seq!['3', hue_digit(h)]),
        Style::BrightFg(h) => sgr(seq!['9', hue_digit(h)]),
        Style::Bg(h) => sgr(seq!['4', hue_digit(h)]),
        Style::BrightBg(h) => sgr(seq!['1', '0', hue_digit(h)]),
        Style::Fixed(n) => sgr(palette_params('3', n)),
        Style::Rgb(r, g, b) => sgr(rgb_params('3', r, g, b)),
        Style::BgFixed(n) => sgr(palette_params('4', n)),
        Style::BgRgb(r, g, b) => sgr(rgb_params('4', r, g, b)),
    }
}

/// The full reset sequence `ESC[0m`.
pub open spec fn full_reset() -> Seq<char> {
    sgr(seq!['0'])
}

/// The sequence that switches a style off: bold and italic have their own,
/// every colour uses the full reset.
pub open spec fn reset_code(s: Style) -> Seq<char> {
    match s {
        Style::Bold => sgr(seq!['2', '2']),
        Style::Italic => sgr(seq!['2', '3']),
        _ => full_reset(),
    }
}

/// `t` with style `s` applied.
pub open spec fn styled(s: Style, t: Seq<char>) -> Seq<char> {
    escape_code(s) + t + reset_code(s)
}

} // verus!
