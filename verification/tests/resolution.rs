use stracciatella::resolution::{parse_resolution, resolution_text};
use stracciatella::text::{
    chars_of, decimal_text, find_char, join_text, parse_u16, same_text, split_text,
};

fn refused() -> Result<(u16, u16), String> {
    Err(String::from("Incorrect resolution format, should be WIDTHxHEIGHT."))
}

#[test]
fn resolution_tokens_are_read() {
    assert_eq!(parse_resolution("1024x768"), Ok((1024, 768)));
    assert_eq!(parse_resolution("1100x480"), Ok((1100, 480)));
    assert_eq!(parse_resolution("1x1"), Ok((1, 1)));
    assert_eq!(parse_resolution("65535x65535"), Ok((65535, 65535)));
    assert_eq!(parse_resolution("+640x0480"), Ok((640, 480)));
}

#[test]
fn malformed_resolution_tokens_are_refused() {
    for token in [
        "", "x", "640", "640x", "x480", "640x480x32", "640X480", "0x480", "640x0", "65536x1",
        "1x65536", "-640x480", "640 x480", "640x 480", "6a0x480", "+x1", "1x+", "99999999999999999999x1",
        "٦٤٠x480",
    ] {
        assert_eq!(parse_resolution(token), refused(), "token {:?}", token);
    }
}

#[test]
fn resolutions_are_written_as_tokens() {
    assert_eq!(resolution_text((100, 100)), "100x100");
    assert_eq!(resolution_text((640, 480)), "640x480");
    assert_eq!(resolution_text((65535, 1)), "65535x1");
    assert_eq!(resolution_text((0, 0)), "0x0");
}

#[test]
fn plain_tokens_are_written_back_as_they_were_read() {
    for token in ["1x1", "640x480", "1024x768", "65535x65535", "10x9", "9x10", "100x1000"] {
        assert_eq!(resolution_text(parse_resolution(token).unwrap()), token);
    }
    for width in [1u16, 9, 10, 99, 100, 255, 256, 9999, 10000, 65535] {
        for height in [1u16, 7, 480, 65535] {
            assert_eq!(
                parse_resolution(&resolution_text((width, height))),
                Ok((width, height))
            );
        }
    }
}

#[test]
fn token_with_a_zero_in_front_is_not_written_back() {
    assert_eq!(resolution_text(parse_resolution("0640x480").unwrap()), "640x480");
}

#[test]
fn numbers_are_written_in_decimal() {
    assert_eq!(decimal_text(0), "0");
    assert_eq!(decimal_text(7), "7");
    assert_eq!(decimal_text(10), "10");
    assert_eq!(decimal_text(65535), "65535");
    assert_eq!(decimal_text(u64::MAX), "18446744073709551615");
}

#[test]
fn numbers_are_read_from_a_range_of_characters() {
    let chars = chars_of("ab+0123x65535,65536");

    assert_eq!(parse_u16(&chars, 2, 7), Some(123));
    assert_eq!(parse_u16(&chars, 3, 7), Some(123));
    assert_eq!(parse_u16(&chars, 3, 4), Some(0));
    assert_eq!(parse_u16(&chars, 8, 13), Some(65535));
    assert_eq!(parse_u16(&chars, 14, 19), None);
    assert_eq!(parse_u16(&chars, 2, 3), None);
    assert_eq!(parse_u16(&chars, 5, 5), None);
    assert_eq!(parse_u16(&chars, 0, 4), None);
    assert_eq!(parse_u16(&chars, 6, 9), None);
}

#[test]
fn characters_are_found_and_texts_compared() {
    let chars = chars_of("äxbxc");

    assert_eq!(chars, vec!['ä', 'x', 'b', 'x', 'c']);
    assert_eq!(find_char(&chars, 0, 'x'), 1);
    assert_eq!(find_char(&chars, 2, 'x'), 3);
    assert_eq!(find_char(&chars, 4, 'x'), 5);
    assert_eq!(find_char(&chars, 5, 'x'), 5);
    assert!(same_text("abc", "abc"));
    assert!(!same_text("abc", "abd"));
    assert!(!same_text("abc", "ab"));
}

#[test]
fn texts_are_split_and_joined() {
    let texts = |list: &[&str]| -> Vec<String> { list.iter().map(|t| String::from(*t)).collect() };

    assert_eq!(split_text("a,b,c", ','), texts(&["a", "b", "c"]));
    assert_eq!(split_text("abc", ','), texts(&["abc"]));
    assert_eq!(split_text("", ','), texts(&[""]));
    assert_eq!(split_text(",a,,b,", ','), texts(&["", "a", "", "b", ""]));
    assert_eq!(split_text("ä,ö", ','), texts(&["ä", "ö"]));
    assert_eq!(join_text(&texts(&["a", "b", "c"]), " "), "a b c");
    assert_eq!(join_text(&texts(&["a"]), ", "), "a");
    assert_eq!(join_text(&texts(&[]), ", "), "");
    assert_eq!(join_text(&texts(&["", ""]), "-"), "-");
}
