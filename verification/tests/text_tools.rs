use web_spec::text::{
    file_stem, has_feature_extension, parse_usize, ratio_to_decimal_string, str_le_exec,
    tenths_to_string, trim, u64_to_string, u128_to_string, usize_to_string,
};

#[test]
fn decimal_rendering_is_exact() {
    assert_eq!(u64_to_string(0), "0");
    assert_eq!(u64_to_string(7), "7");
    assert_eq!(u64_to_string(120), "120");
    assert_eq!(u64_to_string(u64::MAX), "18446744073709551615");
    assert_eq!(usize_to_string(42), "42");
    assert_eq!(u128_to_string(340282366920938463463374607431768211455), "340282366920938463463374607431768211455");
}

#[test]
fn tenths_render_one_decimal_place() {
    assert_eq!(tenths_to_string(510), "51.0");
    assert_eq!(tenths_to_string(513), "51.3");
    assert_eq!(tenths_to_string(9), "0.9");
}

#[test]
fn ratio_decimals_round_half_up() {
    assert_eq!(ratio_to_decimal_string(1, 2), "0.50");
    assert_eq!(ratio_to_decimal_string(1, 3), "0.33");
    assert_eq!(ratio_to_decimal_string(2, 3), "0.67");
    assert_eq!(ratio_to_decimal_string(45000, 1), "45000.00");
    assert_eq!(ratio_to_decimal_string(1, 800), "0.00");
}

#[test]
fn parse_usize_handles_digits_and_junk() {
    assert_eq!(parse_usize("0"), Some(0));
    assert_eq!(parse_usize("120"), Some(120));
    assert_eq!(parse_usize(""), None);
    assert_eq!(parse_usize("12a"), None);
    assert_eq!(parse_usize("99999999999999999999999999"), None);
}

#[test]
fn trim_strips_blanks_on_both_sides() {
    assert_eq!(trim("  hello \t"), "hello");
    assert_eq!(trim("hello"), "hello");
    assert_eq!(trim(" \t "), "");
}

#[test]
fn lexicographic_order_matches_std() {
    let mut pairs = vec![
        ("a", "b"),
        ("abc", "abd"),
        ("ab", "abc"),
        ("", "a"),
        ("same", "same"),
    ];
    for (a, b) in pairs.drain(..) {
        assert_eq!(str_le_exec(&a.to_string(), &b.to_string()), a <= b);
        assert_eq!(str_le_exec(&b.to_string(), &a.to_string()), b <= a);
    }
}

#[test]
fn file_stem_takes_base_name_without_extension() {
    assert_eq!(file_stem(&"dir/test.feature".to_string()), "test");
    assert_eq!(file_stem(&"test.feature".to_string()), "test");
    assert_eq!(file_stem(&"a/b/c.d.feature".to_string()), "c.d");
    assert_eq!(file_stem(&"noext".to_string()), "noext");
    assert_eq!(file_stem(&"dir/".to_string()), "Unknown");
    assert_eq!(file_stem(&".feature".to_string()), ".feature");
}

#[test]
fn feature_extension_is_detected_exactly() {
    assert!(has_feature_extension(&"x.feature".to_string()));
    assert!(has_feature_extension(&".feature".to_string()));
    assert!(!has_feature_extension(&"x.features".to_string()));
    assert!(!has_feature_extension(&"featur".to_string()));
}
