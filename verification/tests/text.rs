use basic_axum_rate_limit::text::{chars_of, decimal_string, find, lowered_chars};

fn chars(text: &str) -> Vec<char> {
    text.chars().collect()
}

#[test]
fn lower_case_is_that_of_unicode() {
    assert_eq!(lowered_chars("Hello, WÖRLD-42"), chars("hello, wörld-42"));
    assert_eq!(lowered_chars("É"), chars("é"));
    assert_eq!(lowered_chars("ПРИВЕТ"), chars("привет"));
    assert_eq!(lowered_chars("already lower ✓"), chars("already lower ✓"));
    assert_eq!(lowered_chars(""), chars(""));
    // one letter may become several characters
    assert_eq!(lowered_chars("İ"), chars("i\u{307}"));
    assert_eq!(chars_of("Hello ✓"), chars("Hello ✓"));
}

#[test]
fn find_looks_at_every_position() {
    assert!(find(&chars("abcabd"), &chars("abd")));
    assert!(find(&chars("abcabd"), &chars("abc")));
    assert!(find(&chars("abcabd"), &chars("d")));
    assert!(find(&chars("abcabd"), &chars("abcabd")));
    assert!(find(&chars("abcabd"), &chars("")));
    assert!(find(&chars(""), &chars("")));
    assert!(!find(&chars(""), &chars("a")));
    assert!(!find(&chars("abcabd"), &chars("abcabda")));
    assert!(!find(&chars("abcabd"), &chars("ac")));
    assert!(!find(&chars("aaab"), &chars("aaaa")));
    assert!(find(&chars("aaab"), &chars("aab")));
}

#[test]
fn numbers_in_decimal() {
    assert_eq!(decimal_string(0), "0");
    assert_eq!(decimal_string(7), "7");
    assert_eq!(decimal_string(10), "10");
    assert_eq!(decimal_string(1090), "1090");
    assert_eq!(decimal_string(usize::MAX), usize::MAX.to_string());
}

#[test]
fn lower_case_agrees_with_the_standard_library() {
    for code in 0..=0x10ffffu32 {
        if let Some(c) = char::from_u32(code) {
            let text = c.to_string();
            assert_eq!(lowered_chars(&text), chars(&text.to_lowercase()));
        }
    }
}

#[test]
fn find_agrees_with_the_standard_library() {
    let hays = ["", "a", "ab", "aab", "abab", "mississippi", "héllo wörld"];
    let needles = ["", "a", "b", "ab", "ba", "ssi", "ssip", "pi", "ö", "lo w", "x"];
    for hay in hays {
        for needle in needles {
            assert_eq!(find(&chars(hay), &chars(needle)), hay.contains(needle), "{:?} in {:?}", needle, hay);
        }
    }
}
