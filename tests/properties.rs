use colour::{paint, Colour, Hue, Style, BOLD, BRIGHT_RED, RED, RESET, RESET_BOLD};

fn count(hay: &str, needle: &str) -> usize {
    hay.match_indices(needle).count()
}

#[test]
fn wraps_between_escape_and_reset() {
    assert_eq!("test".red(), "\x1b[31mtest\x1b[0m");
    assert_eq!("test".bold(), "\x1b[1mtest\x1b[22m");
    assert_eq!("test".italic(), "\x1b[3mtest\x1b[23m");
    assert_eq!("bg".bg_red(), "\x1b[41mbg\x1b[0m");
    assert_eq!("x".bg_bright_white(), "\x1b[107mx\x1b[0m");
}

#[test]
fn empty_text_is_wrapped() {
    assert_eq!("".green(), "\x1b[32m\x1b[0m");
    assert_eq!("".bold(), "\x1b[1m\x1b[22m");
}

#[test]
fn non_ascii_text_is_kept() {
    assert_eq!("héllo ✓".cyan(), "\x1b[36mhéllo ✓\x1b[0m");
}

#[test]
fn restyling_nests() {
    let once = "t".bold();
    let twice = once.bold();
    assert_eq!(twice, format!("{}{}{}", BOLD, once, RESET_BOLD));
    assert!(twice.contains(&once));
}

#[test]
fn chaining_keeps_all_markers() {
    let a = "t".red().bold();
    let b = "t".bold().red();
    for s in [&a, &b] {
        assert!(s.contains(RED));
        assert!(s.contains(RESET));
        assert!(s.contains(BOLD));
        assert!(s.contains(RESET_BOLD));
    }
    assert_eq!(a, "\x1b[1m\x1b[31mt\x1b[0m\x1b[22m");
    assert_eq!(b, "\x1b[31m\x1b[1mt\x1b[22m\x1b[0m");
}

#[test]
fn rainbow_counts_one_reset_per_character() {
    let s = "Hello, rainbow!";
    assert_eq!(count(&s.rainbow(), RESET), s.chars().count());
    let tricky = "\x1b[0m";
    assert_eq!(count(&tricky.rainbow(), RESET), 4);
}

#[test]
fn rainbow_cycles_after_seven() {
    let out = "abcdefgh".rainbow();
    let expected = "\x1b[91ma\x1b[0m\x1b[38;5;208mb\x1b[0m\x1b[93mc\x1b[0m\x1b[92md\x1b[0m\
                    \x1b[94me\x1b[0m\x1b[38;5;63mf\x1b[0m\x1b[38;5;129mg\x1b[0m\x1b[91mh\x1b[0m";
    assert_eq!(out, expected);
}

#[test]
fn rainbow_counts_characters_not_bytes() {
    assert_eq!("é✓".rainbow(), "\x1b[91mé\x1b[0m\x1b[38;5;208m✓\x1b[0m");
}

#[test]
fn rainbow_empty_and_single() {
    assert_eq!("".rainbow(), "");
    assert_eq!("Z".rainbow(), format!("{}Z{}", BRIGHT_RED, RESET));
}

#[test]
fn rainbow_on_owned_string() {
    assert_eq!(String::from("AB").rainbow(), "AB".rainbow());
}

#[test]
fn palette_code_boundaries() {
    assert_eq!("x".truecolour(0), "\x1b[38;5;0mx\x1b[0m");
    assert_eq!("x".truecolour(255), "\x1b[38;5;255mx\x1b[0m");
    assert_eq!("x".truecolour(9), "\x1b[38;5;9mx\x1b[0m");
    assert_eq!("x".truecolour(10), "\x1b[38;5;10mx\x1b[0m");
    assert_eq!("x".truecolour(100), "\x1b[38;5;100mx\x1b[0m");
    assert_eq!("x".bg_truecolour(0), "\x1b[48;5;0mx\x1b[0m");
    assert_eq!("x".bg_truecolour(255), "\x1b[48;5;255mx\x1b[0m");
}

#[test]
fn rgb_boundaries() {
    assert_eq!("x".truecolour_rgb(0, 0, 0), "\x1b[38;2;0;0;0mx\x1b[0m");
    assert_eq!("x".truecolour_rgb(255, 255, 255), "\x1b[38;2;255;255;255mx\x1b[0m");
    assert_eq!("x".bg_truecolour_rgb(0, 0, 0), "\x1b[48;2;0;0;0mx\x1b[0m");
    assert_eq!("x".bg_truecolour_rgb(255, 255, 255), "\x1b[48;2;255;255;255mx\x1b[0m");
    assert_eq!("x".truecolour_rgb(7, 80, 203), "\x1b[38;2;7;80;203mx\x1b[0m");
}

#[test]
fn extended_names_match_palette_codes() {
    assert_eq!("x".orange(), "x".truecolour(208));
    assert_eq!("x".indigo(), "x".truecolour(63));
    assert_eq!("x".violet(), "x".truecolour(129));
}

#[test]
fn paint_with_style_values() {
    assert_eq!(paint(Style::Fg(Hue::Red), "test"), "test".red());
    assert_eq!(paint(Style::BrightBg(Hue::Cyan), "q"), "\x1b[106mq\x1b[0m");
    assert_eq!(paint(Style::Italic, "i"), "\x1b[3mi\x1b[23m");
    assert_eq!(paint(Style::BgRgb(1, 22, 133), "c"), "\x1b[48;2;1;22;133mc\x1b[0m");
}
