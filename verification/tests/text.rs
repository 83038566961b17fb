use kestrl::text::{chars_of, collapsed, is_whitespace, single, spells, string_of, to_decimal};

#[test]
fn whitespace_agrees_with_the_standard_library() {
    for code in 0..=0x10FFFFu32 {
        if let Some(c) = char::from_u32(code) {
            assert_eq!(is_whitespace(c), c.is_whitespace(), "U+{:04X}", code);
        }
    }
}

#[test]
fn chars_and_strings_convert_both_ways() {
    let chars = chars_of("aé日\u{1F600}");
    assert_eq!(chars, vec!['a', 'é', '日', '\u{1F600}']);
    assert_eq!(string_of(&chars, 1, 3), "é日");
    assert_eq!(string_of(&chars, 2, 2), "");
    assert_eq!(single('日'), "日");
}

#[test]
fn spells_compares_a_range_with_a_word() {
    let chars = chars_of("nil nile");
    assert!(spells(&chars, 0, 3, "nil"));
    assert!(spells(&chars, 4, 7, "nil"));
    assert!(!spells(&chars, 4, 8, "nil"));
    assert!(!spells(&chars, 0, 2, "nil"));
    assert!(spells(&chars, 3, 3, ""));
}

#[test]
fn collapsed_matches_strip_split_and_join() {
    for sample in [
        "",
        " ",
        "a",
        " a ",
        "a  b",
        "\\",
        "a\\b",
        "a\\ \\b",
        "\t x \n y\u{2003}z \\",
        "tab\\tnewline\\n",
    ] {
        let chars = chars_of(sample);
        let expected = sample.replace('\\', "").split_whitespace().collect::<Vec<&str>>().join(" ");
        assert_eq!(collapsed(&chars, 0, chars.len()), expected, "{:?}", sample);
    }
}

#[test]
fn decimal_numerals() {
    assert_eq!(to_decimal(0), "0");
    assert_eq!(to_decimal(7), "7");
    assert_eq!(to_decimal(10), "10");
    assert_eq!(to_decimal(1234567890), "1234567890");
    assert_eq!(to_decimal(usize::MAX), usize::MAX.to_string());
}
