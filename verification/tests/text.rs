use page_assets::text::{chars_of, contains, parse_decimal};

#[test]
fn characters_come_out_in_order() {
    assert_eq!(chars_of("día"), vec!['d', 'í', 'a']);
    assert_eq!(chars_of(""), Vec::<char>::new());
}

#[test]
fn contains_agrees_with_the_standard_search() {
    let haystacks = ["", "image", "imag", "image/png", "text/html", "an image", "imimage", "imaimage", "ïmage", "x-image-y"];
    let needles = ["", "image", "im", "e", "png", "ï", "imimage"];
    for haystack in haystacks {
        for needle in needles {
            assert_eq!(contains(haystack, needle), haystack.contains(needle), "{:?} in {:?}", needle, haystack);
        }
    }
}

#[test]
fn decimal_numbers_are_read_exactly() {
    assert_eq!(parse_decimal("0"), Some(0));
    assert_eq!(parse_decimal("2047"), Some(2047));
    assert_eq!(parse_decimal("+2047"), Some(2047));
    assert_eq!(parse_decimal("0002047"), Some(2047));
    assert_eq!(parse_decimal("18446744073709551615"), Some(u64::MAX));
    assert_eq!(parse_decimal("18446744073709551616"), None);
    assert_eq!(parse_decimal("99999999999999999999"), None);
    assert_eq!(parse_decimal(""), None);
    assert_eq!(parse_decimal("+"), None);
    assert_eq!(parse_decimal("++1"), None);
    assert_eq!(parse_decimal("-1"), None);
    assert_eq!(parse_decimal("1+"), None);
    assert_eq!(parse_decimal("12a"), None);
    assert_eq!(parse_decimal(" 12"), None);
    assert_eq!(parse_decimal("١٢"), None);
}

#[test]
fn decimal_numbers_agree_with_the_standard_parser() {
    for text in ["0", "1", "+1", "-0", "+0", "00", "1e3", "1.0", "4294967296", "١", "12\n", "+-1", "18446744073709551615", "18446744073709551625"] {
        assert_eq!(parse_decimal(text), text.parse::<u64>().ok(), "{:?}", text);
    }
}
