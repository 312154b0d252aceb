use agent_registry::is_valid_cid;

#[test]
fn plain_cid_is_valid() {
    assert!(is_valid_cid("bafkreigs35l72j7oni6pwwnny2ae2nb4lto5jdzfy2yyb5hxggdeub2f2i"));
}

#[test]
fn prefix_is_not_asked_for() {
    assert!(is_valid_cid("not-a-cid"));
    assert!(is_valid_cid("x"));
    assert!(is_valid_cid("Qm"));
}

#[test]
fn empty_cid_is_not_valid() {
    assert!(!is_valid_cid(""));
}

#[test]
fn blank_cid_is_not_valid() {
    assert!(!is_valid_cid("   "));
    assert!(!is_valid_cid(" "));
    assert!(!is_valid_cid("\t"));
    assert!(!is_valid_cid("\n"));
    assert!(!is_valid_cid("\r\n"));
    assert!(!is_valid_cid("\u{0b}\u{0c}"));
    assert!(!is_valid_cid(" \t\r\n \u{85}\u{a0}\u{1680}\u{2000}\u{200a}\u{2028}\u{2029}\u{202f}\u{205f}\u{3000}"));
}

#[test]
fn white_space_around_a_cid_does_not_matter() {
    assert!(is_valid_cid(" bafy "));
    assert!(is_valid_cid("\tbafy"));
    assert!(is_valid_cid("bafy\n"));
    assert!(is_valid_cid("  a  b  "));
    assert!(is_valid_cid("\u{3000}x\u{3000}"));
}

#[test]
fn characters_next_to_the_white_space_ranges_count() {
    assert!(is_valid_cid("\u{08}"));
    assert!(is_valid_cid("\u{0e}"));
    assert!(is_valid_cid("\u{1f}"));
    assert!(is_valid_cid("!"));
    assert!(is_valid_cid("\u{84}"));
    assert!(is_valid_cid("\u{86}"));
    assert!(is_valid_cid("\u{9f}"));
    assert!(is_valid_cid("\u{a1}"));
    assert!(is_valid_cid("\u{167f}"));
    assert!(is_valid_cid("\u{1681}"));
    assert!(is_valid_cid("\u{180e}"));
    assert!(is_valid_cid("\u{1fff}"));
    assert!(is_valid_cid("\u{200b}"));
    assert!(is_valid_cid("\u{2027}"));
    assert!(is_valid_cid("\u{202a}"));
    assert!(is_valid_cid("\u{202e}"));
    assert!(is_valid_cid("\u{2030}"));
    assert!(is_valid_cid("\u{205e}"));
    assert!(is_valid_cid("\u{2060}"));
    assert!(is_valid_cid("\u{2fff}"));
    assert!(is_valid_cid("\u{3001}"));
    assert!(is_valid_cid("\u{feff}"));
    assert!(is_valid_cid("\u{0}"));
    assert!(is_valid_cid("\u{10ffff}"));
}

#[test]
fn every_single_character_is_judged_as_white_space_or_not() {
    let mut white: u32 = 0;
    for code in 0..=0x10ffffu32 {
        if let Some(c) = char::from_u32(code) {
            let text = c.to_string();
            assert_eq!(is_valid_cid(&text), !c.is_whitespace(), "U+{:04X}", code);
            if !is_valid_cid(&text) {
                white += 1;
            }
        }
    }
    assert_eq!(white, 25);
}

#[test]
fn validity_is_what_is_left_after_trimming() {
    let samples = [
        "",
        " ",
        "   ",
        "a",
        " a",
        "a ",
        " a ",
        "\t\n",
        "\t\na\n\t",
        "bafy b",
        "\u{2003}",
        "\u{2003}\u{200b}\u{2003}",
        "\u{a0}cid\u{a0}",
    ];
    for sample in samples {
        assert_eq!(is_valid_cid(sample), !sample.trim().is_empty(), "{:?}", sample);
    }
}
