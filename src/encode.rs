//! Building escape sequences and wrapping text in them.
use vstd::prelude::*;
use crate::codes::{
    decimal, digit_char, escape_code, palette_params, reset_code, rgb_params, sgr, styled, Hue,
    Style, BG_BLACK, BG_BLUE, BG_BRIGHT_BLACK, BG_BRIGHT_BLUE, BG_BRIGHT_CYAN, BG_BRIGHT_GREEN,
    BG_BRIGHT_MAGENTA, BG_BRIGHT_RED, BG_BRIGHT_WHITE, BG_BRIGHT_YELLOW, BG_CYAN, BG_GREEN,
    BG_MAGENTA, BG_RED, BG_WHITE, BG_YELLOW, BLACK, BLUE, BOLD, BRIGHT_BLACK, BRIGHT_BLUE,
    BRIGHT_CYAN, BRIGHT_GREEN, BRIGHT_MAGENTA, BRIGHT_RED, BRIGHT_WHITE, BRIGHT_YELLOW, CYAN,
    GREEN, ITALIC, MAGENTA, RED, RESET, RESET_BOLD, RESET_ITALIC, WHITE, YELLOW,
};

verus! {

const DIGITS: &'static str = "0123456789";

/// The one-character string of the digit `d`.
fn digit(d: u8) -> (r: &'static str)
    requires
        d < 10,
    ensures
        r@ == seq![digit_char(d as nat)],
{
    proof {
        reveal_strlit("0123456789");
    }
    let s = DIGITS.substring_char(d as usize, d as usize + 1);
    assert(s@ =~= seq![DIGITS@[d as int]]);
    s
}

/// Appends `n` in decimal to `out`.
fn push_decimal(out: &mut String, n: u8)
    ensures
        final(out)@ == old(out)@ + decimal(n as nat),
{
    proof {
        reveal_with_fuel(decimal, 3);
    }
    if n >= 100 {
        out.append(digit(n / 100));
        out.append(digit(n / 10 % 10));
        out.append(digit(n % 10));
        assert(decimal(n as nat) =~= seq![
            digit_char((n / 100) as nat),
            digit_char((n / 10 % 10) as nat),
            digit_char((n % 10) as nat),
        ]);
    } else if n >= 10 {
        out.append(digit(n / 10));
        out.append(digit(n % 10));
        assert(decimal(n as nat) =~= seq![digit_char((n / 10) as nat), digit_char((n % 10) as nat)]);
    } else {
        out.append(digit(n));
    }
    assert(final(out)@ =~= old(out)@ + decimal(n as nat));
}

/// The standard foreground sequence of a basic colour.
fn fg_code(h: Hue) -> (r: &'static str)
    ensures
        r@ == escape_code(Style::Fg(h)),
{
    proof {
        reveal_strlit("\x1b[30m");
        reveal_strlit("\x1b[31m");
        reveal_strlit("\x1b[32m");
        reveal_strlit("\x1b[33m");
        reveal_strlit("\x1b[34m");
        reveal_strlit("\x1b[35m");
        reveal_strlit("\x1b[36m");
        reveal_strlit("\x1b[37m");
    }
    let r = match h {
        Hue::Black => BLACK,
        Hue::Red => RED,
        Hue::Green => GREEN,
        Hue::Yellow => YELLOW,
        Hue::Blue => BLUE,
        Hue::Magenta => MAGENTA,
        Hue::Cyan => CYAN,
        Hue::White => WHITE,
    };
    assert(r@ =~= escape_code(Style::Fg(h)));
    r
}

/// The bright foreground sequence of a basic colour.
fn bright_fg_code(h: Hue) -> (r: &'static str)
    ensures
        r@ == escape_code(Style::BrightFg(h)),
{
    proof {
        reveal_strlit("\x1b[90m");
        reveal_strlit("\x1b[91m");
        reveal_strlit("\x1b[92m");
        reveal_strlit("\x1b[93m");
        reveal_strlit("\x1b[94m");
        reveal_strlit("\x1b[95m");
        reveal_strlit("\x1b[96m");
        reveal_strlit("\x1b[97m");
    }
    let r = match h {
        Hue::Black => BRIGHT_BLACK,
        Hue::Red => BRIGHT_RED,
        Hue::Green => BRIGHT_GREEN,
        Hue::Yellow => BRIGHT_YELLOW,
        Hue::Blue => BRIGHT_BLUE,
        Hue::Magenta => BRIGHT_MAGENTA,
        Hue::Cyan => BRIGHT_CYAN,
        Hue::White => BRIGHT_WHITE,
    };
    assert(r@ =~= escape_code(Style::BrightFg(h)));
    r
}

/// The standard background sequence of a basic colour.
fn bg_code(h: Hue) -> (r: &'static str)
    ensures
        r@ == escape_code(Style::Bg(h)),
{
    proof {
        reveal_strlit("\x1b[40m");
        reveal_strlit("\x1b[41m");
        reveal_strlit("\x1b[42m");
        reveal_strlit("\x1b[43m");
        reveal_strlit("\x1b[44m");
        reveal_strlit("\x1b[45m");
        reveal_strlit("\x1b[46m");
        reveal_strlit("\x1b[47m");
    }
    let r = match h {
        Hue::Black => BG_BLACK,
        Hue::Red => BG_RED,
        Hue::Green => BG_GREEN,
        Hue::Yellow => BG_YELLOW,
        Hue::Blue => BG_BLUE,
        Hue::Magenta => BG_MAGENTA,
        Hue::Cyan => BG_CYAN,
        Hue::White => BG_WHITE,
    };
    assert(r@ =~= escape_code(Style::Bg(h)));
    r
}

/// The bright background sequence of a basic colour.
fn bright_bg_code(h: Hue) -> (r: &'static str)
    ensures
        r@ == escape_code(Style::BrightBg(h)),
{
    proof {
        reveal_strlit("\x1b[100m");
        reveal_strlit("\x1b[101m");
        reveal_strlit("\x1b[102m");
        reveal_strlit("\x1b[103m");
        reveal_strlit("\x1b[104m");
        reveal_strlit("\x1b[105m");
        reveal_strlit("\x1b[106m");
        reveal_strlit("\x1b[107m");
    }
    let r = match h {
        Hue::Black => BG_BRIGHT_BLACK,
        Hue::Red => BG_BRIGHT_RED,
        Hue::Green => BG_BRIGHT_GREEN,
        Hue::Yellow => BG_BRIGHT_YELLOW,
        Hue::Blue => BG_BRIGHT_BLUE,
        Hue::Magenta => BG_BRIGHT_MAGENTA,
        Hue::Cyan => BG_BRIGHT_CYAN,
        Hue::White => BG_BRIGHT_WHITE,
    };
    assert(r@ =~= escape_code(Style::BrightBg(h)));
    r
}

/// The sequence `ESC[l8;5;nm`, with `l` 3 for the foreground and 4 for the background.
fn palette_code(background: bool, n: u8) -> (r: String)
    ensures
        r@ == sgr(palette_params(if background { '4' } else { '3' }, n)),
{
    proof {
        reveal_strlit("\x1b[38;5;");
        reveal_strlit("\x1b[48;5;");
        reveal_strlit("m");
    }
    let mut out = String::from_str(if background { "\x1b[48;5;" } else { "\x1b[38;5;" });
    push_decimal(&mut out, n);
    out.append("m");
    assert(out@ =~= sgr(palette_params(if background { '4' } else { '3' }, n)));
    out
}

/// The sequence `ESC[l8;2;r;g;bm`, with `l` 3 for the foreground and 4 for the background.
fn rgb_code(background: bool, r: u8, g: u8, b: u8) -> (out: String)
    ensures
        out@ == sgr(rgb_params(if background { '4' } else { '3' }, r, g, b)),
{
    proof {
        reveal_strlit("\x1b[38;2;");
        reveal_strlit("\x1b[48;2;");
        reveal_strlit(";");
        reveal_strlit("m");
    }
    let mut out = String::from_str(if background { "\x1b[48;2;" } else { "\x1b[38;2;" });
    push_decimal(&mut out, r);
    out.append(";");
    push_decimal(&mut out, g);
    out.append(";");
    push_decimal(&mut out, b);
    out.append("m");
    assert(out@ =~= sgr(rgb_params(if background { '4' } else { '3' }, r, g, b)));
    out
}

/// The sequence that switches `style` on.
pub fn escape(style: Style) -> (r: String)
    ensures
        r@ == escape_code(style),
{
    proof {
        reveal_strlit("\x1b[1m");
        reveal_strlit("\x1b[3m");
    }
    match style {
        Style::Bold => {
            assert(BOLD@ =~= escape_code(style));
            String::from_str(BOLD)
        },
        Style::Italic => {
            assert(ITALIC@ =~= escape_code(style));
            String::from_str(ITALIC)
        },
        Style::Fg(h) => String::from_str(fg_code(h)),
        Style::BrightFg(h) => String::from_str(bright_fg_code(h)),
        Style::Bg(h) => String::from_str(bg_code(h)),
        Style::BrightBg(h) => String::from_str(bright_bg_code(h)),
        Style::Fixed(n) => palette_code(false, n),
        Style::Rgb(r, g, b) => rgb_code(false, r, g, b),
        Style::BgFixed(n) => palette_code(true, n),
        Style::BgRgb(r, g, b) => rgb_code(true, r, g, b),
    }
}

/// The sequence that switches `style` off.
pub fn reset(style: Style) -> (r: &'static str)
    ensures
        r@ == reset_code(style),
{
    proof {
        reveal_strlit("\x1b[0m");
        reveal_strlit("\x1b[22m");
        reveal_strlit("\x1b[23m");
    }
    let r = match style {
        Style::Bold => RESET_BOLD,
        Style::Italic => RESET_ITALIC,
        _ => RESET,
    };
    assert(r@ =~= reset_code(style));
    r
}

/// `text` between the escape sequence of `style` and its reset sequence.
pub fn paint(style: Style, text: &str) -> (r: String)
    ensures
        r@ == styled(style, text@),
{
    let mut out = escape(style);
    out.append(text);
    out.append(reset(style));
    out
}

} // verus!
