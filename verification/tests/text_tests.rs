use gen4_smogon_tracker::names::{dex_slug, sprite_url, tidy};
use gen4_smogon_tracker::text::{leading_field_of, parse_usize_or_zero, same_text};

#[test]
fn leading_field_cases() {
    assert_eq!(leading_field_of("252 Atk / 4 SpD / 252 Spe | 252 HP / 4 Atk"), "252 Atk / 4 SpD / 252 Spe");
    assert_eq!(leading_field_of("252 HP / 252 Def"), "252 HP / 252 Def");
    assert_eq!(leading_field_of(""), "");
    assert_eq!(leading_field_of(" | rest"), "");
    assert_eq!(leading_field_of("a |b | c"), "a |b");
    assert_eq!(leading_field_of("a|b"), "a|b");
    assert_eq!(leading_field_of("x | "), "x");
}

#[test]
fn leading_field_agrees_with_split() {
    for s in ["a | b | c", "", "no sep", " | ", "ab |  | cd", "é | ü"] {
        assert_eq!(leading_field_of(s), s.split(" | ").next().unwrap());
    }
}

#[test]
fn parse_usize_cases() {
    assert_eq!(parse_usize_or_zero("42"), 42);
    assert_eq!(parse_usize_or_zero("+7"), 7);
    assert_eq!(parse_usize_or_zero("007"), 7);
    assert_eq!(parse_usize_or_zero("+"), 0);
    assert_eq!(parse_usize_or_zero("-3"), 0);
    assert_eq!(parse_usize_or_zero("12a"), 0);
    assert_eq!(parse_usize_or_zero(""), 0);
    assert_eq!(parse_usize_or_zero("++1"), 0);
    assert_eq!(parse_usize_or_zero(&usize::MAX.to_string()), usize::MAX);
    assert_eq!(parse_usize_or_zero("99999999999999999999999"), 0);
}

#[test]
fn parse_usize_agrees_with_std() {
    let max = usize::MAX.to_string();
    let over = format!("{}0", max);
    for s in ["0", "1", "+0", "15", " 1", "1 ", "+-1", "٣", max.as_str(), over.as_str()] {
        assert_eq!(parse_usize_or_zero(s), s.parse::<usize>().unwrap_or_default(), "{s}");
    }
}

#[test]
fn same_text_cases() {
    assert!(same_text("Standard", "Standard"));
    assert!(!same_text("Standard", "standard"));
    assert!(!same_text("OU", "OUU"));
    assert!(same_text("", ""));
}

#[test]
fn tidy_and_slugs() {
    assert_eq!(tidy("Mr. Mime"), "Mr-Mime");
    assert_eq!(tidy("Farfetch'd"), "Farfetchd");
    assert_eq!(dex_slug("Mr. Mime"), "mr-mime");
    assert_eq!(dex_slug("Farfetch'd"), "farfetchd");
    assert_eq!(dex_slug("Tapu Koko"), "tapu-koko");
    assert_eq!(dex_slug("Garchomp"), "garchomp");
}

#[test]
fn sprite_urls() {
    assert_eq!(sprite_url("Mr. Mime"), "https://smogon.com/dex/media/sprites/xy/mr-mime.gif");
    assert_eq!(sprite_url("Tapu Koko"), "https://smogon.com/dex/media/sprites/xy/tapu-koko.gif");
    assert_eq!(sprite_url("Sirfetch'd"), "https://smogon.com/dex/media/sprites/xy/sirfetchd.gif");
}
