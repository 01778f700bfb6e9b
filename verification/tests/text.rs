use ponderer::text::{
    char_is_whitespace, char_to_lower, chars_of, contains, decimal, find_from, found_at, is_text,
    same_text, slice_of, starts_with, string_of, to_lower, trim_bounds, trim_start_index, trimmed,
};

fn chars(text: &str) -> Vec<char> {
    text.chars().collect()
}

#[test]
fn characters_and_strings_convert_both_ways() {
    assert_eq!(chars_of("h\u{e9}y"), vec!['h', '\u{e9}', 'y']);
    assert_eq!(chars_of(""), Vec::<char>::new());
    assert_eq!(string_of(&vec!['o', 'k', '\u{2026}']), "ok\u{2026}");
    assert_eq!(string_of(&chars_of("round trip")), "round trip");
}

#[test]
fn numbers_are_written_in_decimal() {
    assert_eq!(decimal(0), "0");
    assert_eq!(decimal(7), "7");
    assert_eq!(decimal(10), "10");
    assert_eq!(decimal(4096), "4096");
    assert_eq!(decimal(1234567890), "1234567890");
    assert_eq!(decimal(usize::MAX), usize::MAX.to_string());
}

#[test]
fn white_space_is_what_the_standard_library_trims() {
    for code in 0u32..0x3100 {
        if let Some(c) = char::from_u32(code) {
            assert_eq!(char_is_whitespace(c), c.is_whitespace(), "U+{:04X}", code);
        }
    }
}

#[test]
fn lower_case_touches_ascii_capitals_only() {
    for code in 0u32..0x250 {
        if let Some(c) = char::from_u32(code) {
            assert_eq!(char_to_lower(c), c.to_ascii_lowercase(), "U+{:04X}", code);
        }
    }
    assert_eq!(string_of(&to_lower(&chars("MiXed \u{c9}t\u{e9} 42"))), "mixed \u{c9}t\u{e9} 42");
}

#[test]
fn trimming() {
    assert_eq!(string_of(&trimmed(&chars("  a b \n"))), "a b");
    assert_eq!(string_of(&trimmed(&chars("\u{a0}x\u{3000}"))), "x");
    assert_eq!(string_of(&trimmed(&chars("   "))), "");
    assert_eq!(string_of(&trimmed(&chars(""))), "");
    assert_eq!(trim_bounds(&chars("  ab ")), (2, 4));
    assert_eq!(trim_start_index(&chars("\t\tz ")), 2);
    assert_eq!(trim_start_index(&chars("   ")), 3);
    for sample in ["", " ", "x", " x", "x ", "  two words\t", "\n\r\n"] {
        assert_eq!(string_of(&trimmed(&chars(sample))), sample.trim());
    }
}

#[test]
fn slices_and_comparisons() {
    assert_eq!(slice_of(&chars("abcdef"), 2, 4), vec!['c', 'd']);
    assert_eq!(slice_of(&chars("abcdef"), 3, 3), Vec::<char>::new());
    assert!(same_text(&chars("abc"), &chars("abc")));
    assert!(!same_text(&chars("abc"), &chars("abd")));
    assert!(!same_text(&chars("abc"), &chars("ab")));
    assert!(is_text(&chars("off"), "off"));
    assert!(!is_text(&chars("off"), "of"));
}

#[test]
fn searching() {
    let hay = chars("run_command --bash");
    assert!(found_at(&hay, &chars("run"), 0));
    assert!(!found_at(&hay, &chars("run"), 1));
    assert!(found_at(&hay, &chars("bash"), 14));
    assert!(!found_at(&hay, &chars("bash"), 15));
    assert!(found_at(&hay, &chars(""), 18));
    assert!(!found_at(&hay, &chars(""), 19));
    assert!(starts_with(&hay, "run_"));
    assert!(!starts_with(&hay, "un_"));
    assert!(starts_with(&hay, ""));
    assert!(contains(&hay, "command"));
    assert!(contains(&hay, "--"));
    assert!(!contains(&hay, "commands"));
    assert!(contains(&chars(""), ""));
    assert!(!contains(&chars(""), "x"));
    assert_eq!(find_from(&chars("abcabc"), &chars("bc"), 0), Some(1));
    assert_eq!(find_from(&chars("abcabc"), &chars("bc"), 2), Some(4));
    assert_eq!(find_from(&chars("abcabc"), &chars("bc"), 5), None);
    assert_eq!(find_from(&chars("abc"), &chars("abcd"), 0), None);
}
