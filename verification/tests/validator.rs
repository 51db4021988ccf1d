use zero2prod::validator::contains_forbidden_chars;
use zero2prod::validator::exceeds_limit;
use zero2prod::validator::is_empty_or_whitespace;
use zero2prod::validator::is_too_long;
use zero2prod::validator::is_whitespace;
use zero2prod::validator::validate_name;
use zero2prod::validator::MAX_NAME_LENGTH;

#[test]
fn too_long_name() {
    let name = "Lorem ipsum dolor sit amet, consectetur adipiscing elit, sed do eiusmod tempor incididunt ut labore et dolore magna aliqua. Ut enim ad minim veniam, quis nostrud exercitation ullamco laboris nisi ut aliquip ex ea commodo consequat. Duis aute irure dolor in reprehenderit in voluptate velit esse cillum dolore eu fugiat nulla pariatur. Excepteur sint occaecat cupidatat non proident, sunt in culpa qui officia deserunt mollit anim id est laborum.";
    assert!(!validate_name(name))
}

#[test]
fn empty_name() {
    let name = "";
    assert!(!validate_name(name))
}

#[test]
fn whitespace_name() {
    let name = " ";
    assert!(!validate_name(name))
}

#[test]
fn forbidden_characters() {
    let name = "<h1>Hello</h1>";
    assert!(!validate_name(name))
}

#[test]
fn right_name() {
    let name = "Ursule LeGuin";
    assert!(validate_name(name))
}

#[test]
fn ursula_le_guin_is_a_valid_name() {
    assert!(validate_name("Ursula LeGuin"));
}

#[test]
fn name_at_the_limit_passes_and_one_more_fails() {
    assert_eq!(MAX_NAME_LENGTH, 256);
    let at_limit = "a".repeat(256);
    let over_limit = "a".repeat(257);
    assert!(validate_name(&at_limit));
    assert!(!validate_name(&over_limit));
    assert!(!is_too_long(&at_limit));
    assert!(is_too_long(&over_limit));
}

#[test]
fn length_counts_graphemes_not_code_points() {
    // Each cluster is a letter with a combining accent: two code points.
    let at_limit = "e\u{301}".repeat(256);
    assert_eq!(at_limit.chars().count(), 512);
    assert!(!is_too_long(&at_limit));
    assert!(validate_name(&at_limit));
    let over_limit = "e\u{301}".repeat(257);
    assert!(is_too_long(&over_limit));
    assert!(!validate_name(&over_limit));
}

#[test]
fn length_counts_a_flag_as_one_character() {
    // A regional-indicator pair is one cluster of two code points.
    let flags = "\u{1F1F7}\u{1F1FA}".repeat(256);
    assert!(validate_name(&flags));
    let more_flags = "\u{1F1F7}\u{1F1FA}".repeat(257);
    assert!(!validate_name(&more_flags));
}

#[test]
fn limit_is_exclusive_above_256() {
    assert!(!exceeds_limit(0));
    assert!(!exceeds_limit(256));
    assert!(exceeds_limit(257));
    assert!(exceeds_limit(usize::MAX));
}

#[test]
fn each_forbidden_character_is_rejected() {
    for c in ['/', '(', ')', '"', '<', '>', '\\', '{', '}'] {
        let name = format!("Ursula{}LeGuin", c);
        assert!(contains_forbidden_chars(&name), "{:?}", c);
        assert!(!validate_name(&name), "{:?}", c);
    }
}

#[test]
fn other_punctuation_is_accepted() {
    for c in ['-', '\'', '.', ',', '[', ']', '&', '@', '|', '_'] {
        let name = format!("Ursula{}LeGuin", c);
        assert!(!contains_forbidden_chars(&name), "{:?}", c);
        assert!(validate_name(&name), "{:?}", c);
    }
    assert!(!contains_forbidden_chars(""));
}

#[test]
fn names_of_white_space_only_are_rejected() {
    for name in ["", " ", "   ", "\t", "\n", "\r\n", "\u{A0}", "\u{2003}\u{3000}", " \t\u{85}\u{2028}"] {
        assert!(is_empty_or_whitespace(name), "{:?}", name);
        assert!(!validate_name(name), "{:?}", name);
    }
}

#[test]
fn names_with_white_space_around_are_accepted() {
    for name in [" a", "a ", " a ", "\tUrsula\n", "\u{200B}"] {
        assert!(!is_empty_or_whitespace(name), "{:?}", name);
        assert!(validate_name(name), "{:?}", name);
    }
}

#[test]
fn blank_agrees_with_trimming() {
    for name in ["", " ", " x ", "\u{1680}", "\u{180E}", "\u{FEFF}", "a\u{3000}", "\u{2000}\u{200A}"] {
        assert_eq!(is_empty_or_whitespace(name), name.trim().is_empty(), "{:?}", name);
    }
}

#[test]
fn white_space_is_the_unicode_property() {
    let mut code: u32 = 0;
    while code <= 0x10FFFF {
        if let Some(c) = char::from_u32(code) {
            assert_eq!(is_whitespace(c), c.is_whitespace(), "U+{:04X}", code);
        }
        code += 1;
    }
}

#[test]
fn name_is_not_normalised() {
    // Case and composition are left alone: both forms pass as they are.
    assert!(validate_name("URSULA"));
    assert!(validate_name("ursula"));
    assert!(validate_name("\u{E9}"));
    assert!(validate_name("e\u{301}"));
}
