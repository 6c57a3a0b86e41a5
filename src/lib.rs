//! Terminal text styling with ANSI escape sequences.
//!
//! Every operation wraps the text between the sequence that switches a style
//! on and the sequence that switches it off, and returns a new `String`.
//! Results nest: styling an already styled string keeps the inner pair intact.
use vstd::prelude::*;

pub mod codes;
pub mod encode;
pub mod laws;
pub mod rainbow;

pub use codes::{
    Hue, Style, BG_BLACK, BG_BLUE, BG_BRIGHT_BLACK, BG_BRIGHT_BLUE, BG_BRIGHT_CYAN, BG_BRIGHT_GREEN,
    BG_BRIGHT_MAGENTA, BG_BRIGHT_RED, BG_BRIGHT_WHITE, BG_BRIGHT_YELLOW, BG_CYAN, BG_GREEN,
    BG_MAGENTA, BG_RED, BG_WHITE, BG_YELLOW, BLACK, BLUE, BOLD, BRIGHT_BLACK, BRIGHT_BLUE,
    BRIGHT_CYAN, BRIGHT_GREEN, BRIGHT_MAGENTA, BRIGHT_RED, BRIGHT_WHITE, BRIGHT_YELLOW, CYAN,
    GREEN, INDIGO, ITALIC, MAGENTA, ORANGE, RED, RESET, RESET_BOLD, RESET_ITALIC, VIOLET, WHITE,
    YELLOW,
};
pub use encode::paint;

verus! {

use crate::codes::{escape_code, reset_code};
use crate::rainbow::rainbow_of;

/// Styling for anything that reads as a string.
pub trait Colour {
    /// The characters of the text to style.
    spec fn text(&self) -> Seq<char>;

    /// The text to style, as a string slice.
    fn text_str(&self) -> (r: &str)
        ensures
            r@ == self.text(),
    ;

    /// Sets the text style to bold.
    fn bold(&self) -> (r: String)
        ensures
            r@ == escape_code(Style::Bold) + self.text() + reset_code(Style::Bold),
    {
        paint(Style::Bold, self.text_str())
    }

    /// Sets the text style to italic.
    fn italic(&self) -> (r: String)
        ensures
            r@ == escape_code(Style::Italic) + self.text() + reset_code(Style::Italic),
    {
        paint(Style::Italic, self.text_str())
    }

    /// Changes the text colour to black.
    fn black(&self) -> (r: String)
        ensures
            r@ == escape_code(Style::Fg(Hue::Black)) + self.text() + reset_code(Style::Fg(Hue::Black)),
    {
        paint(Style::Fg(Hue::Black), self.text_str())
    }

    /// Changes the text colour to red.
    fn red(&self) -> (r: String)
        ensures
            r@ == escape_code(Style::Fg(Hue::Red)) + self.text() + reset_code(Style::Fg(Hue::Red)),
    {
        paint(Style::Fg(Hue::Red), self.text_str())
    }

    /// Changes the text colour to green.
    fn green(&self) -> (r: String)
        ensures
            r@ == escape_code(Style::Fg(Hue::Green)) + self.text() + reset_code(Style::Fg(Hue::Green)),
    {
        paint(Style::Fg(Hue::Green), self.text_str())
    }

    /// Changes the text colour to yellow.
    fn yellow(&self) -> (r: String)
        ensures
            r@ == escape_code(Style::Fg(Hue::Yellow)) + self.text() + reset_code(Style::Fg(Hue::Yellow)),
    {
        paint(Style::Fg(Hue::Yellow), self.text_str())
    }

    /// Changes the text colour to blue.
    fn blue(&self) -> (r: String)
        ensures
            r@ == escape_code(Style::Fg(Hue::Blue)) + self.text() + reset_code(Style::Fg(Hue::Blue)),
    {
        paint(Style::Fg(Hue::Blue), self.text_str())
    }

    /// Changes the text colour to magenta.
    fn magenta(&self) -> (r: String)
        ensures
            r@ == escape_code(Style::Fg(Hue::Magenta)) + self.text() + reset_code(Style::Fg(Hue::Magenta)),
    {
        paint(Style::Fg(Hue::Magenta), self.text_str())
    }

    /// Changes the text colour to cyan.
    fn cyan(&self) -> (r: String)
        ensures
            r@ == escape_code(Style::Fg(Hue::Cyan)) + self.text() + reset_code(Style::Fg(Hue::Cyan)),
    {
        paint(Style::Fg(Hue::Cyan), self.text_str())
    }

    /// Changes the text colour to white.
    fn white(&self) -> (r: String)
        ensures
            r@ == escape_code(Style::Fg(Hue::White)) + self.text() + reset_code(Style::Fg(Hue::White)),
    {
        paint(Style::Fg(Hue::White), self.text_str())
    }

    /// Changes the text colour to bright black.
    fn bright_black(&self) -> (r: String)
        ensures
            r@ == escape_code(Style::BrightFg(Hue::Black)) + self.text() + reset_code(Style::BrightFg(Hue::Black)),
    {
        paint(Style::BrightFg(Hue::Black), self.text_str())
    }

    /// Changes the text colour to bright red.
    fn bright_red(&self) -> (r: String)
        ensures
            r@ == escape_code(Style::BrightFg(Hue::Red)) + self.text() + reset_code(Style::BrightFg(Hue::Red)),
    {
        paint(Style::BrightFg(Hue::Red), self.text_str())
    }

    /// Changes the text colour to bright green.
    fn bright_green(&self) -> (r: String)
        ensures
            r@ == escape_code(Style::BrightFg(Hue::Green)) + self.text() + reset_code(Style::BrightFg(Hue::Green)),
    {
        paint(Style::BrightFg(Hue::Green), self.text_str())
    }

    /// Changes the text colour to bright yellow.
    fn bright_yellow(&self) -> (r: String)
        ensures
            r@ == escape_code(Style::BrightFg(Hue::Yellow)) + self.text() + reset_code(Style::BrightFg(Hue::Yellow)),
    {
        paint(Style::BrightFg(Hue::Yellow), self.text_str())
    }

    /// Changes the text colour to bright blue.
    fn bright_blue(&self) -> (r: String)
        ensures
            r@ == escape_code(Style::BrightFg(Hue::Blue)) + self.text() + reset_code(Style::BrightFg(Hue::Blue)),
    {
        paint(Style::BrightFg(Hue::Blue), self.text_str())
    }

    /// Changes the text colour to bright magenta.
    fn bright_magenta(&self) -> (r: String)
        ensures
            r@ == escape_code(Style::BrightFg(Hue::Magenta)) + self.text() + reset_code(Style::BrightFg(Hue::Magenta)),
    {
        paint(Style::BrightFg(Hue::Magenta), self.text_str())
    }

    /// Changes the text colour to bright cyan.
    fn bright_cyan(&self) -> (r: String)
        ensures
            r@ == escape_code(Style::BrightFg(Hue::Cyan)) + self.text() + reset_code(Style::BrightFg(Hue::Cyan)),
    {
        paint(Style::BrightFg(Hue::Cyan), self.text_str())
    }

    /// Changes the text colour to bright white.
    fn bright_white(&self) -> (r: String)
        ensures
            r@ == escape_code(Style::BrightFg(Hue::White)) + self.text() + reset_code(Style::BrightFg(Hue::White)),
    {
        paint(Style::BrightFg(Hue::White), self.text_str())
    }

    /// Changes the background colour to black.
    fn bg_black(&self) -> (r: String)
        ensures
            r@ == escape_code(Style::Bg(Hue::Black)) + self.text() + reset_code(Style::Bg(Hue::Black)),
    {
        paint(Style::Bg(Hue::Black), self.text_str())
    }

    /// Changes the background colour to red.
    fn bg_red(&self) -> (r: String)
        ensures
            r@ == escape_code(Style::Bg(Hue::Red)) + self.text() + reset_code(Style::Bg(Hue::Red)),
    {
        paint(Style::Bg(Hue::Red), self.text_str())
    }

    /// Changes the background colour to green.
    fn bg_green(&self) -> (r: String)
        ensures
            r@ == escape_code(Style::Bg(Hue::Green)) + self.text() + reset_code(Style::Bg(Hue::Green)),
    {
        paint(Style::Bg(Hue::Green), self.text_str())
    }

    /// Changes the background colour to yellow.
    fn bg_yellow(&self) -> (r: String)
        ensures
            r@ == escape_code(Style::Bg(Hue::Yellow)) + self.text() + reset_code(Style::Bg(Hue::Yellow)),
    {
        paint(Style::Bg(Hue::Yellow), self.text_str())
    }

    /// Changes the background colour to blue.
    fn bg_blue(&self) -> (r: String)
        ensures
            r@ == escape_code(Style::Bg(Hue::Blue)) + self.text() + reset_code(Style::Bg(Hue::Blue)),
    {
        paint(Style::Bg(Hue::Blue), self.text_str())
    }

    /// Changes the background colour to magenta.
    fn bg_magenta(&self) -> (r: String)
        ensures
            r@ == escape_code(Style::Bg(Hue::Magenta)) + self.text() + reset_code(Style::Bg(Hue::Magenta)),
    {
        paint(Style::Bg(Hue::Magenta), self.text_str())
    }

    /// Changes the background colour to cyan.
    fn bg_cyan(&self) -> (r: String)
        ensures
            r@ == escape_code(Style::Bg(Hue::Cyan)) + self.text() + reset_code(Style::Bg(Hue::Cyan)),
    {
        paint(Style::Bg(Hue::Cyan), self.text_str())
    }

    /// Changes the background colour to white.
    fn bg_white(&self) -> (r: String)
        ensures
            r@ == escape_code(Style::Bg(Hue::White)) + self.text() + reset_code(Style::Bg(Hue::White)),
    {
        paint(Style::Bg(Hue::White), self.text_str())
    }

    /// Changes the background colour to bright black.
    fn bg_bright_black(&self) -> (r: String)
        ensures
            r@ == escape_code(Style::BrightBg(Hue::Black)) + self.text() + reset_code(Style::BrightBg(Hue::Black)),
    {
        paint(Style::BrightBg(Hue::Black), self.text_str())
    }

    /// Changes the background colour to bright red.
    fn bg_bright_red(&self) -> (r: String)
        ensures
            r@ == escape_code(Style::BrightBg(Hue::Red)) + self.text() + reset_code(Style::BrightBg(Hue::Red)),
    {
        paint(Style::BrightBg(Hue::Red), self.text_str())
    }

    /// Changes the background colour to bright green.
    fn bg_bright_green(&self) -> (r: String)
        ensures
            r@ == escape_code(Style::BrightBg(Hue::Green)) + self.text() + reset_code(Style::BrightBg(Hue::Green)),
    {
        paint(Style::BrightBg(Hue::Green), self.text_str())
    }

    /// Changes the background colour to bright yellow.
    fn bg_bright_yellow(&self) -> (r: String)
        ensures
            r@ == escape_code(Style::BrightBg(Hue::Yellow)) + self.text() + reset_code(Style::BrightBg(Hue::Yellow)),
    {
        paint(Style::BrightBg(Hue::Yellow), self.text_str())
    }

    /// Changes the background colour to bright blue.
    fn bg_bright_blue(&self) -> (r: String)
        ensures
            r@ == escape_code(Style::BrightBg(Hue::Blue)) + self.text() + reset_code(Style::BrightBg(Hue::Blue)),
    {
        paint(Style::BrightBg(Hue::Blue), self.text_str())
    }

    /// Changes the background colour to bright magenta.
    fn bg_bright_magenta(&self) -> (r: String)
        ensures
            r@ == escape_code(Style::BrightBg(Hue::Magenta)) + self.text() + reset_code(Style::BrightBg(Hue::Magenta)),
    {
        paint(Style::BrightBg(Hue::Magenta), self.text_str())
    }

    /// Changes the background colour to bright cyan.
    fn bg_bright_cyan(&self) -> (r: String)
        ensures
            r@ == escape_code(Style::BrightBg(Hue::Cyan)) + self.text() + reset_code(Style::BrightBg(Hue::Cyan)),
    {
        paint(Style::BrightBg(Hue::Cyan), self.text_str())
    }

    /// Changes the background colour to bright white.
    fn bg_bright_white(&self) -> (r: String)
        ensures
            r@ == escape_code(Style::BrightBg(Hue::White)) + self.text() + reset_code(Style::BrightBg(Hue::White)),
    {
        paint(Style::BrightBg(Hue::White), self.text_str())
    }

    /// Changes the text colour to orange (palette colour 208).
    fn orange(&self) -> (r: String)
        ensures
            r@ == escape_code(Style::Fixed(208)) + self.text() + reset_code(Style::Fixed(208)),
    {
        paint(Style::Fixed(208), self.text_str())
    }

    /// Changes the text colour to indigo (palette colour 63).
    fn indigo(&self) -> (r: String)
        ensures
            r@ == escape_code(Style::Fixed(63)) + self.text() + reset_code(Style::Fixed(63)),
    {
        paint(Style::Fixed(63), self.text_str())
    }

    /// Changes the text colour to violet (palette colour 129).
    fn violet(&self) -> (r: String)
        ensures
            r@ == escape_code(Style::Fixed(129)) + self.text() + reset_code(Style::Fixed(129)),
    {
        paint(Style::Fixed(129), self.text_str())
    }

    /// Applies a custom text colour given as red, green and blue.
    fn truecolour_rgb(&self, r: u8, g: u8, b: u8) -> (out: String)
        ensures
            out@ == escape_code(Style::Rgb(r, g, b)) + self.text() + reset_code(Style::Rgb(r, g, b)),
    {
        paint(Style::Rgb(r, g, b), self.text_str())
    }

    /// Applies a text colour from the 256-colour palette.
    fn truecolour(&self, code: u8) -> (r: String)
        ensures
            r@ == escape_code(Style::Fixed(code)) + self.text() + reset_code(Style::Fixed(code)),
    {
        paint(Style::Fixed(code), self.text_str())
    }

    /// Applies a custom background colour given as red, green and blue.
    fn bg_truecolour_rgb(&self, r: u8, g: u8, b: u8) -> (out: String)
        ensures
            out@ == escape_code(Style::BgRgb(r, g, b)) + self.text() + reset_code(Style::BgRgb(r, g, b)),
    {
        paint(Style::BgRgb(r, g, b), self.text_str())
    }

    /// Applies a background colour from the 256-colour palette.
    fn bg_truecolour(&self, code: u8) -> (r: String)
        ensures
            r@ == escape_code(Style::BgFixed(code)) + self.text() + reset_code(Style::BgFixed(code)),
    {
        paint(Style::BgFixed(code), self.text_str())
    }

    /// Colours each character in turn with bright red, orange, bright yellow,
    /// bright green, bright blue, indigo and violet, cycling.
    fn rainbow(&self) -> (r: String)
        ensures
            r@ == rainbow_of(self.text()),
    {
        rainbow::rainbow(self.text_str())
    }
}

impl Colour for str {
    open spec fn text(&self) -> Seq<char> {
        self@
    }

    fn text_str(&self) -> (r: &str) {
        self
    }
}

impl Colour for String {
    open spec fn text(&self) -> Seq<char> {
        self@
    }

    fn text_str(&self) -> (r: &str) {
        self.as_str()
    }
}

} // verus!
