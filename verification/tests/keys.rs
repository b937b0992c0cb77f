use gm_streaks::key::trim;
use gm_streaks::pk_for;

#[test]
fn pk_for_joins_address_and_chain() {
    assert_eq!(pk_for("abc", 10), "abc:10");
    assert_eq!(pk_for("0xDEAD", 1), "0xDEAD:1");
    assert_eq!(pk_for("", 0), ":0");
}

#[test]
fn pk_for_negative_and_extreme_chain_ids() {
    assert_eq!(pk_for("a", -7), "a:-7");
    assert_eq!(pk_for("x", i32::MIN), "x:-2147483648");
    assert_eq!(pk_for("x", i32::MAX), "x:2147483647");
}

#[test]
fn pk_for_does_not_escape_the_separator() {
    // a known limitation: an address holding the separator can collide
    assert_eq!(pk_for("a:1", 2), "a:1:2");
    assert_eq!(pk_for("a", 12), pk_for("a", 12));
}

#[test]
fn trim_strips_surrounding_whitespace() {
    assert_eq!(trim("  hi \t"), "hi");
    assert_eq!(trim("hi"), "hi");
    assert_eq!(trim(""), "");
    assert_eq!(trim(" \n\t "), "");
    assert_eq!(trim("a b"), "a b");
    assert_eq!(trim(" a b "), "a b");
}

#[test]
fn trim_handles_unicode_whitespace() {
    assert_eq!(trim("\u{3000}a\u{2028}"), "a");
    assert_eq!(trim("\u{00A0}\u{2009}x y\u{205F}"), "x y");
}

#[test]
fn trim_agrees_with_the_standard_library() {
    let samples = [
        "",
        "   ",
        "abc",
        "  abc",
        "abc  ",
        " a b c ",
        "\t\n\r\u{000B}\u{000C}z\u{0085}\u{1680}",
        "\u{2000}\u{2001}\u{2002}m\u{2003}\u{2004}",
        "\u{2005}\u{2006}\u{2007}\u{2008}\u{2009}\u{200A}q",
        "\u{2028}\u{2029}\u{202F}\u{205F}\u{3000}w\u{3000}",
        "\u{200B}nonspace\u{200B}",
    ];
    for s in samples {
        assert_eq!(trim(s), s.trim(), "mismatch on {s:?}");
    }
}
