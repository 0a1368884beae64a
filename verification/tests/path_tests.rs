use starship_segments::colors::bg;
use starship_segments::colors::fg;
use starship_segments::numfmt::dec_str;
use starship_segments::path::collapse_home;
use starship_segments::path::path_components;
use starship_segments::path::render_path;
use starship_segments::path::split_components;
use starship_segments::path::truncate_components;

const ARROW: &str = "\u{e0b0}";
const THIN: &str = "\u{e0b1}";

fn fg_s(c: u8) -> String {
    format!("\x1b[38;5;{}m", c)
}

fn bg_s(c: u8) -> String {
    format!("\x1b[48;5;{}m", c)
}

#[test]
fn fg_matches_ansi_escape() {
    assert_eq!(fg(31), "\x1b[38;5;31m");
    assert_eq!(fg(0), "\x1b[38;5;0m");
    assert_eq!(fg(255), "\x1b[38;5;255m");
}

#[test]
fn bg_matches_ansi_escape() {
    assert_eq!(bg(237), "\x1b[48;5;237m");
    assert_eq!(bg(9), "\x1b[48;5;9m");
}

#[test]
fn decimal_rendering() {
    assert_eq!(dec_str(0), "0");
    assert_eq!(dec_str(7), "7");
    assert_eq!(dec_str(10), "10");
    assert_eq!(dec_str(161), "161");
    assert_eq!(dec_str(u32::MAX), "4294967295");
}

#[test]
fn collapse_home_replaces_prefix() {
    assert_eq!(collapse_home("/home/user", "/home/user/code"), "~/code");
    assert_eq!(collapse_home("/home/user", "/home/user"), "~");
    assert_eq!(collapse_home("/home/user", "/srv/data"), "/srv/data");
}

#[test]
fn collapse_home_empty_home_prefixes_everything() {
    // An unset home is the empty string, which is a prefix of every path.
    assert_eq!(collapse_home("", "/x"), "~/x");
}

#[test]
fn split_drops_empty_fields() {
    assert_eq!(split_components("/a//b/"), vec!["a", "b"]);
    assert_eq!(split_components("a/b/c"), vec!["a", "b", "c"]);
    assert_eq!(split_components("///"), Vec::<String>::new());
    assert_eq!(split_components(""), Vec::<String>::new());
}

#[test]
fn root_becomes_single_slash_component() {
    assert_eq!(path_components("x", "/"), vec!["/"]);
}

#[test]
fn empty_path_components() {
    // With a non-matching home an empty path degrades to the root marker;
    // with an empty home the empty path collapses to the home marker.
    assert_eq!(path_components("x", ""), vec!["/"]);
    assert_eq!(path_components("", ""), vec!["~"]);
}

#[test]
fn collapse_home_matches_character_prefixes_only() {
    // The match is a plain prefix match, not a component-wise one.
    assert_eq!(collapse_home("/home/u", "/home/user"), "~ser");
}

#[test]
fn deep_path_shows_exactly_five_components() {
    let cs = path_components("/home/user", "/a/b/c/d/e/f/g");
    assert_eq!(cs.len(), 7);
    let shown = truncate_components(cs);
    assert_eq!(shown.len(), 5);
    assert_eq!(shown[0], "\u{2026}");
    assert_eq!(shown, vec!["\u{2026}", "d", "e", "f", "g"]);
}

#[test]
fn shallow_path_is_not_truncated() {
    let cs = path_components("/home/user", "/a/b/c/d/e");
    let shown = truncate_components(cs);
    assert_eq!(shown, vec!["a", "b", "c", "d", "e"]);
}

#[test]
fn render_path_single_component() {
    let out = render_path("/home/user", "/home/user");
    let expected = format!(
        "{}{}{} {}{} {}{}{}",
        fg_s(238),
        bg_s(31),
        ARROW,
        fg_s(15),
        "~",
        fg_s(31),
        bg_s(237),
        ARROW
    );
    assert_eq!(out, expected);
}

#[test]
fn render_path_two_components() {
    let out = render_path("/home/user", "/home/user/code");
    let expected = format!(
        "{}{}{} {}{} {}{}{} {}{} ",
        fg_s(238),
        bg_s(31),
        ARROW,
        fg_s(15),
        "~",
        fg_s(31),
        bg_s(237),
        ARROW,
        fg_s(254),
        "code"
    );
    assert_eq!(out, expected);
}

#[test]
fn render_path_three_components_uses_thin_divider() {
    let out = render_path("/home/user", "/home/user/code/proj");
    let expected = format!(
        "{}{}{} {}{} {}{}{} {}{} {}{} {}{} ",
        fg_s(238),
        bg_s(31),
        ARROW,
        fg_s(15),
        "~",
        fg_s(31),
        bg_s(237),
        ARROW,
        fg_s(254),
        "code",
        fg_s(245),
        THIN,
        fg_s(254),
        "proj"
    );
    assert_eq!(out, expected);
}

#[test]
fn render_path_deep_starts_with_ellipsis() {
    let out = render_path("/home/user", "/a/b/c/d/e/f/g");
    assert!(out.contains("\u{2026}"));
    assert!(out.contains("g"));
    assert!(!out.contains("/a"));
}

#[test]
fn render_path_is_idempotent() {
    let a = render_path("/home/user", "/home/user/code/proj");
    let b = render_path("/home/user", "/home/user/code/proj");
    assert_eq!(a, b);
}
