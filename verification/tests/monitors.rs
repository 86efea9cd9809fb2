use adaptive_display::config::Configuration;
use adaptive_display::error::ErrorKind;
use adaptive_display::monitors::{
    is_space_char, needs_enumeration, parse_monitor_listing, resolve_monitors,
};

fn names(list: &[&str]) -> Vec<String> {
    list.iter().map(|s| s.to_string()).collect()
}

fn configured(list: &[&str]) -> Configuration {
    Configuration { monitor_names: Some(names(list)), ..Configuration::default() }
}

#[test]
fn reads_a_listing_of_two_monitors() {
    let listing = "Monitors: 2\n 0: +*DP-0 2560/597x1440/336+0+0  DP-0\n 1: +HDMI-0 1920/531x1080/299+2560+0  HDMI-0\n";
    assert_eq!(parse_monitor_listing(listing), names(&["DP-0", "HDMI-0"]));
}

#[test]
fn header_alone_names_nothing() {
    assert_eq!(parse_monitor_listing("Monitors: 0\n"), Vec::<String>::new());
    assert_eq!(parse_monitor_listing("Monitors: 0"), Vec::<String>::new());
    assert_eq!(parse_monitor_listing(""), Vec::<String>::new());
    assert_eq!(parse_monitor_listing("\n"), Vec::<String>::new());
}

#[test]
fn first_line_is_skipped_even_if_it_looks_like_a_monitor() {
    assert_eq!(parse_monitor_listing("DP-0\nDP-1"), names(&["DP-1"]));
    assert_eq!(parse_monitor_listing("\neDP-1"), names(&["eDP-1"]));
}

#[test]
fn last_line_needs_no_line_feed() {
    assert_eq!(parse_monitor_listing("Monitors: 1\n 0: +eDP-1 1/2x3/4+0+0  eDP-1"), names(&["eDP-1"]));
}

#[test]
fn blank_lines_name_nothing() {
    let listing = "Monitors: 2\n\n 0: a  A\n   \t \n 1: b  B\n\n\n";
    assert_eq!(parse_monitor_listing(listing), names(&["A", "B"]));
}

#[test]
fn name_is_the_last_word_of_the_line() {
    assert_eq!(parse_monitor_listing("h\none two three"), names(&["three"]));
    assert_eq!(parse_monitor_listing("h\nsingle"), names(&["single"]));
    assert_eq!(parse_monitor_listing("h\n  padded   \t"), names(&["padded"]));
    assert_eq!(parse_monitor_listing("h\nx"), names(&["x"]));
    assert_eq!(parse_monitor_listing("h\n a"), names(&["a"]));
}

#[test]
fn carriage_returns_are_spaces() {
    assert_eq!(parse_monitor_listing("Monitors: 2\r\n 0: x  DP-0\r\n 1: y  DP-1\r\n"), names(&["DP-0", "DP-1"]));
}

#[test]
fn unicode_spaces_separate_words() {
    assert_eq!(parse_monitor_listing("h\nleft\u{00A0}right"), names(&["right"]));
    assert_eq!(parse_monitor_listing("h\nleft\u{2003}right\u{3000}"), names(&["right"]));
    assert_eq!(parse_monitor_listing("h\nleft\u{200B}right"), names(&["left\u{200B}right"]));
}

#[test]
fn names_may_hold_any_other_character() {
    assert_eq!(parse_monitor_listing("h\n 0: Bildschirm-grün"), names(&["Bildschirm-grün"]));
    assert_eq!(parse_monitor_listing("h\n 0: 屏幕 显示器"), names(&["显示器"]));
}

#[test]
fn parser_agrees_with_the_standard_library() {
    let listings = [
        "Monitors: 2\n 0: +*DP-0 2560/597x1440/336+0+0  DP-0\n 1: +HDMI-0 1920/531x1080/299+2560+0  HDMI-0\n",
        "a b\n c d \n\n e\u{0085}f\r\n\u{1680}g\u{2028}h \n",
        "\n\n\n x",
        "one line only",
        "h\n\u{0009}\u{000B}\u{000C}q\u{202F}r\u{205F}s",
    ];
    for listing in listings {
        let expected: Vec<String> = listing
            .lines()
            .skip(1)
            .filter_map(|line| line.split_whitespace().last().map(String::from))
            .collect();
        assert_eq!(parse_monitor_listing(listing), expected);
    }
}

#[test]
fn space_characters_are_those_of_the_standard_library() {
    for code in 0u32..0x11_0000 {
        if let Some(c) = char::from_u32(code) {
            assert_eq!(is_space_char(c), c.is_whitespace());
        }
    }
}

#[test]
fn parsing_is_repeatable() {
    let listing = "Monitors: 1\n 0: +eDP-1 1/2x3/4+0+0  eDP-1\n";
    assert_eq!(parse_monitor_listing(listing), parse_monitor_listing(listing));
}

#[test]
fn enumeration_is_needed_only_without_configured_names() {
    assert!(needs_enumeration(&Configuration::default()));
    assert!(!needs_enumeration(&configured(&["DP-0"])));
    assert!(!needs_enumeration(&configured(&[])));
}

#[test]
fn configured_names_take_priority() {
    let cfg = configured(&["DP-0", "HDMI-0"]);
    let listing = "Monitors: 1\n 0: +eDP-1 1/2x3/4+0+0  eDP-1\n";
    assert_eq!(resolve_monitors(&cfg, listing), Ok(names(&["DP-0", "HDMI-0"])));
    assert_eq!(resolve_monitors(&cfg, ""), Ok(names(&["DP-0", "HDMI-0"])));
}

#[test]
fn configured_empty_list_is_taken_as_it_is() {
    assert_eq!(resolve_monitors(&configured(&[]), "h\n x"), Ok(Vec::new()));
}

#[test]
fn listing_is_used_without_configured_names() {
    let cfg = Configuration::default();
    let listing = "Monitors: 1\n 0: +eDP-1 1/2x3/4+0+0  eDP-1\n";
    assert_eq!(resolve_monitors(&cfg, listing), Ok(names(&["eDP-1"])));
}

#[test]
fn empty_enumeration_is_an_error() {
    let cfg = Configuration::default();
    assert_eq!(resolve_monitors(&cfg, "Monitors: 0\n"), Err(ErrorKind::NoMonitorsFound));
    assert_eq!(resolve_monitors(&cfg, ""), Err(ErrorKind::NoMonitorsFound));
    assert_eq!(resolve_monitors(&cfg, "Monitors: 0\n  \n\t\n"), Err(ErrorKind::NoMonitorsFound));
}
