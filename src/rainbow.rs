//! Colouring each character of a text in turn from a fixed seven-colour cycle.
use vstd::prelude::*;
use crate::codes::{
    escape_code, full_reset, Hue, Style, BRIGHT_BLUE, BRIGHT_GREEN, BRIGHT_RED, BRIGHT_YELLOW,
    INDIGO, ORANGE, RESET, VIOLET,
};

verus! {

broadcast use vstd::string::group_string_axioms;

/// Number of colours in the rainbow cycle.
pub const CYCLE: usize = 7;

/// The colour of the character at position `i`: bright red, orange, bright
/// yellow, bright green, bright blue, indigo, violet, then again.
pub open spec fn rainbow_style(i: nat) -> Style {
    let k = i % 7;
    if k == 0 {
        Style::BrightFg(Hue::Red)
    } else if k == 1 {
        Style::Fixed(208)
    } else if k == 2 {
        Style::BrightFg(Hue::Yellow)
    } else if k == 3 {
        Style::BrightFg(Hue::Green)
    } else if k == 4 {
        Style::BrightFg(Hue::Blue)
    } else if k == 5 {
        Style::Fixed(63)
    } else {
        Style::Fixed(129)
    }
}

/// The output for character `c` at position `i`: its colour, the character, the full reset.
pub open spec fn rainbow_cell(i: nat, c: char) -> Seq<char> {
    escape_code(rainbow_style(i)) + seq![c] + full_reset()
}

/// The rainbow transform of `t`: the cells of its characters, in order.
pub open spec fn rainbow_of(t: Seq<char>) -> Seq<char>
    decreases t.len(),
{
    if t.len() == 0 {
        Seq::empty()
    } else {
        rainbow_of(t.drop_last()) + rainbow_cell((t.len() - 1) as nat, t.last())
    }
}

/// The escape sequence of entry `k` of the cycle.
fn cycle_code(k: usize) -> (r: &'static str)
    requires
        k < CYCLE,
    ensures
        r@ == escape_code(rainbow_style(k as nat)),
{
    proof {
        reveal_strlit("\x1b[91m");
        reveal_strlit("\x1b[38;5;208m");
        reveal_strlit("\x1b[93m");
        reveal_strlit("\x1b[92m");
        reveal_strlit("\x1b[94m");
        reveal_strlit("\x1b[38;5;63m");
        reveal_strlit("\x1b[38;5;129m");
        reveal_with_fuel(crate::codes::decimal, 3);
    }
    let r = if k == 0 {
        BRIGHT_RED
    } else if k == 1 {
        ORANGE
    } else if k == 2 {
        BRIGHT_YELLOW
    } else if k == 3 {
        BRIGHT_GREEN
    } else if k == 4 {
        BRIGHT_BLUE
    } else if k == 5 {
        INDIGO
    } else {
        VIOLET
    };
    assert(r@ =~= escape_code(rainbow_style(k as nat)));
    r
}

/// Relies on `String::push`: appends one character.
#[verifier::external_body]
fn push_char(s: &mut String, c: char)
    ensures
        final(s)@ == old(s)@.push(c),
{
    s.push(c);
}

/// Colours each character of `text` with the cycle entry of its position.
pub fn rainbow(text: &str) -> (r: String)
    ensures
        r@ == rainbow_of(text@),
{
    let mut out = String::new();
    let mut k: usize = 0;
    let ghost mut i: nat = 0;
    for c in it: text.chars()
        invariant
            it.seq() == text@,
            i == it.index(),
            k == i % 7,
            out@ == rainbow_of(text@.take(i as int)),
    {
        let ghost prefix = text@.take(i as int);
        out.append(cycle_code(k));
        push_char(&mut out, c);
        out.append(RESET);
        proof {
            reveal_strlit("\x1b[0m");
            let next = text@.take(i + 1 as int);
            assert(next.drop_last() =~= prefix);
            assert(full_reset() =~= RESET@);
            assert(out@ =~= rainbow_of(next));
            i = i + 1;
        }
        k = if k + 1 == CYCLE { 0 } else { k + 1 };
    }
    assert(text@.take(text@.len() as int) =~= text@);
    out
}

} // verus!
