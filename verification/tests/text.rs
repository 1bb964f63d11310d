use lg_buddy::number::{
    decimal_string, hex_digit_str, hex_digit_value, parse_number, IntError,
};
use lg_buddy::text::{
    char_is_space, contains_text, same_text, split_fields, split_lines, split_once, trimmed,
};

#[test]
fn whitespace_is_that_of_unicode() {
    for code in 0..=0x10ffff_u32 {
        if let Some(c) = char::from_u32(code) {
            assert_eq!(char_is_space(c), c.is_whitespace(), "{:x}", code);
        }
    }
}

const SAMPLES: [&str; 16] = [
    "",
    " ",
    "a",
    " a b ",
    "\t\u{a0}x\u{2003}\r\n",
    "one\ntwo",
    "one\ntwo\n",
    "one\r\ntwo\r\n",
    "one\r\ntwo\r",
    "\n\n",
    "\r\n",
    "a\rb\nc",
    "k=v=w",
    "=",
    "héllo=wörld",
    "::a:b::",
];

#[test]
fn trimming_keeps_what_std_keeps() {
    for sample in SAMPLES {
        assert_eq!(trimmed(sample), sample.trim());
    }
}

#[test]
fn lines_are_those_of_std() {
    for sample in SAMPLES {
        assert_eq!(split_lines(sample), sample.lines().collect::<Vec<_>>());
    }
}

#[test]
fn fields_are_those_of_std() {
    for sample in SAMPLES {
        assert_eq!(
            split_fields(sample, ':'),
            sample.split(':').collect::<Vec<_>>()
        );
        assert_eq!(split_once(sample, '='), sample.split_once('='));
    }
}

#[test]
fn joining_the_fields_gives_the_text_back() {
    for sample in SAMPLES {
        assert_eq!(split_fields(sample, ':').join(":"), sample);
    }
}

#[test]
fn parts_are_found_where_std_finds_them() {
    for sample in SAMPLES {
        for part in SAMPLES {
            assert_eq!(contains_text(sample, part), sample.contains(part));
            assert_eq!(same_text(sample, part), sample == part);
        }
    }
}

fn as_std(text: &str) -> Result<u64, String> {
    text.parse::<u8>()
        .map(u64::from)
        .map_err(|error| error.to_string())
}

#[test]
fn numbers_are_read_as_std_reads_them() {
    for text in [
        "", "+", "-", "0", "7", "+7", "-7", "007", "255", "256", "2560", "256x", "99x", "x", "1 ",
        " 1", "++1", "100000000000000000000000",
    ] {
        let read = parse_number(text, 255).map_err(|error| error.as_str().to_string());
        assert_eq!(read, as_std(text), "{:?}", text);
    }
}

#[test]
fn each_fault_of_a_number_has_its_error() {
    assert_eq!(parse_number("", 9), Err(IntError::Empty));
    assert_eq!(parse_number("1a", 99), Err(IntError::InvalidDigit));
    assert_eq!(parse_number("10", 9), Err(IntError::TooLarge));
    assert_eq!(
        parse_number("18446744073709551615", u64::MAX),
        Ok(18446744073709551615)
    );
    assert_eq!(
        parse_number("18446744073709551616", u64::MAX),
        Err(IntError::TooLarge)
    );
}

#[test]
fn numbers_are_written_as_std_writes_them_and_read_back() {
    for value in [0, 1, 9, 10, 99, 100, 6, 12345, u64::MAX] {
        assert_eq!(decimal_string(value), value.to_string());
        assert_eq!(parse_number(&decimal_string(value), u64::MAX), Ok(value));
    }
}

#[test]
fn hexadecimal_digits_are_read_back() {
    for value in 0..16_u8 {
        let digit = hex_digit_str(value);
        assert_eq!(digit, format!("{:x}", value));
        assert_eq!(
            hex_digit_value(digit.chars().next().unwrap()),
            Some(value)
        );
    }
    assert_eq!(hex_digit_value('F'), Some(15));
    assert_eq!(hex_digit_value('g'), None);
}
