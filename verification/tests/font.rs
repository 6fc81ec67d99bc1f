use rlr::font::{font_name, strip_size, trim};

#[test]
fn family_is_what_stands_before_the_size() {
    assert_eq!(font_name("DejaVu Sans 12"), "DejaVu Sans");
    assert_eq!(font_name("Sans 10"), "Sans");
    assert_eq!(font_name("Noto Serif Bold 9"), "Noto Serif Bold");
}

#[test]
fn family_without_a_space_is_the_whole() {
    assert_eq!(font_name("Sans"), "Sans");
    assert_eq!(font_name(""), "");
}

#[test]
fn family_is_trimmed() {
    assert_eq!(font_name("  Sans  "), "Sans");
    assert_eq!(font_name("\tMono\n 11"), "Mono");
    assert_eq!(font_name(" "), "");
    assert_eq!(font_name("Sans "), "Sans");
}

#[test]
fn family_keeps_characters_outside_ascii() {
    assert_eq!(font_name("Liberation Sans Ελληνικά 12"), "Liberation Sans Ελληνικά");
    assert_eq!(font_name("\u{2003}Fira\u{a0}Code\u{3000} 8"), "Fira\u{a0}Code");
}

#[test]
fn strip_size_cuts_at_the_last_space() {
    assert_eq!(strip_size("a b c"), "a b");
    assert_eq!(strip_size("a "), "a");
    assert_eq!(strip_size(" a"), "");
    assert_eq!(strip_size("abc"), "abc");
    assert_eq!(strip_size("a\tb"), "a\tb");
}

#[test]
fn trim_agrees_with_std() {
    for text in ["", " ", "a", " a", "a ", "  a b  ", "\n\t x \r\n", "\u{2028}y\u{205f}", "é ", "\u{200b}z"] {
        assert_eq!(trim(text), text.trim());
    }
}
