use rkm::size::{parse_size, SizeParseError, Unit};

const KB: usize = 1024;
const MB: usize = 1024 * 1024;
const GB: usize = 1024 * 1024 * 1024;

/// The same grammar, written with what the standard library offers.
fn by_the_book(text: &str) -> Result<usize, SizeParseError> {
    let lowered = text.to_lowercase();
    let body = lowered.trim();
    let run = body.chars().take_while(|c| c.is_ascii_digit()).count();
    if run == 0 {
        return Err(SizeParseError::EmptyDigits);
    }
    let number: usize = match body[..run].parse() {
        Ok(n) => n,
        Err(_) => return Err(SizeParseError::BadNumber),
    };
    let factor = match &body[run..] {
        "b" | "bytes" => 1,
        "kb" => KB,
        "mb" => MB,
        "gb" => GB,
        _ => return Err(SizeParseError::UnknownUnit),
    };
    number.checked_mul(factor).ok_or(SizeParseError::Overflow)
}

#[test]
fn parses_each_unit() {
    assert_eq!(parse_size("7b"), Ok(7));
    assert_eq!(parse_size("32bytes"), Ok(32));
    assert_eq!(parse_size("1kb"), Ok(1024));
    assert_eq!(parse_size("20mb"), Ok(20 * MB));
    assert_eq!(parse_size("3gb"), Ok(3 * GB));
}

#[test]
fn multipliers_are_binary() {
    assert_eq!(parse_size("1kb"), Ok(1024));
    assert_eq!(parse_size("1mb"), Ok(1_048_576));
    assert_eq!(parse_size("1gb"), Ok(1_073_741_824));
    assert_eq!(Unit::Bytes.multiplier(), 1);
    assert_eq!(Unit::Kilobytes.multiplier(), 1024);
    assert_eq!(Unit::Megabytes.multiplier(), 1_048_576);
    assert_eq!(Unit::Gigabytes.multiplier(), 1_073_741_824);
}

#[test]
fn zero_is_a_size() {
    assert_eq!(parse_size("0bytes"), Ok(0));
    assert_eq!(parse_size("0b"), Ok(0));
    assert_eq!(parse_size("0gb"), Ok(0));
}

#[test]
fn one_byte() {
    assert_eq!(parse_size("1b"), Ok(1));
}

#[test]
fn letters_of_either_case() {
    for text in ["1kb", "1KB", "1Kb", "1kB"] {
        assert_eq!(parse_size(text), Ok(1024), "{text}");
    }
    for text in ["32bytes", "32BYTES", "32Bytes", "32bYtEs"] {
        assert_eq!(parse_size(text), Ok(32), "{text}");
    }
    assert_eq!(parse_size("5B"), Ok(5));
    assert_eq!(parse_size("5MB"), Ok(5 * MB));
    assert_eq!(parse_size("2GB"), Ok(2 * GB));
}

#[test]
fn kelvin_sign_reads_as_k() {
    assert_eq!(parse_size("1\u{212A}b"), Ok(1024));
    assert_eq!(parse_size("1\u{212A}B"), Ok(1024));
}

#[test]
fn other_letters_do_not_fold() {
    // LATIN SMALL LETTER LONG S has the capital S, but is no s.
    assert_eq!(parse_size("1byte\u{17F}"), Err(SizeParseError::UnknownUnit));
    // LATIN CAPITAL LETTER I WITH DOT ABOVE
    assert_eq!(parse_size("1\u{130}b"), Err(SizeParseError::UnknownUnit));
    // FULLWIDTH LATIN SMALL LETTER B
    assert_eq!(parse_size("1\u{FF42}"), Err(SizeParseError::UnknownUnit));
}

#[test]
fn whitespace_around_is_ignored() {
    assert_eq!(parse_size(" 1kb"), Ok(1024));
    assert_eq!(parse_size("1kb "), Ok(1024));
    assert_eq!(parse_size("\t 1kb\r\n"), Ok(1024));
    assert_eq!(parse_size("\u{3000}1kb\u{A0}\u{2003}"), Ok(1024));
}

#[test]
fn whitespace_inside_is_not() {
    assert_eq!(parse_size("1 kb"), Err(SizeParseError::UnknownUnit));
    assert_eq!(parse_size("1 2b"), Err(SizeParseError::UnknownUnit));
    assert_eq!(parse_size("1k b"), Err(SizeParseError::UnknownUnit));
}

#[test]
fn digits_and_unit_do_not_interleave() {
    assert_eq!(parse_size("1b2mb"), Err(SizeParseError::UnknownUnit));
    assert_eq!(parse_size("1b2"), Err(SizeParseError::UnknownUnit));
    assert_eq!(parse_size("b1"), Err(SizeParseError::EmptyDigits));
}

#[test]
fn missing_unit() {
    assert_eq!(parse_size("1024"), Err(SizeParseError::UnknownUnit));
    assert_eq!(parse_size("0"), Err(SizeParseError::UnknownUnit));
}

#[test]
fn unknown_units() {
    for text in ["1tb", "1kib", "1byte", "1bs", "1k", "1m", "1g", "1kbs", "1bb", "1bytess"] {
        assert_eq!(parse_size(text), Err(SizeParseError::UnknownUnit), "{text}");
    }
}

#[test]
fn negative_and_fractional() {
    assert_eq!(parse_size("-1b"), Err(SizeParseError::EmptyDigits));
    assert_eq!(parse_size("+1b"), Err(SizeParseError::EmptyDigits));
    assert_eq!(parse_size("1.5mb"), Err(SizeParseError::UnknownUnit));
    assert_eq!(parse_size("1e3b"), Err(SizeParseError::UnknownUnit));
    assert_eq!(parse_size(".5mb"), Err(SizeParseError::EmptyDigits));
}

#[test]
fn no_digits() {
    assert_eq!(parse_size(""), Err(SizeParseError::EmptyDigits));
    assert_eq!(parse_size("   "), Err(SizeParseError::EmptyDigits));
    assert_eq!(parse_size("kb"), Err(SizeParseError::EmptyDigits));
    assert_eq!(parse_size("bytes"), Err(SizeParseError::EmptyDigits));
    // Digits of other scripts are no digits here.
    assert_eq!(parse_size("\u{661}b"), Err(SizeParseError::EmptyDigits));
}

#[test]
fn number_too_large() {
    assert_eq!(
        parse_size("99999999999999999999999999999999999999999b"),
        Err(SizeParseError::BadNumber)
    );
    // A number that does not fit is bad whatever follows it.
    assert_eq!(
        parse_size("99999999999999999999999999999999999999999"),
        Err(SizeParseError::BadNumber)
    );
    assert_eq!(
        parse_size("99999999999999999999999999999999999999999xyz"),
        Err(SizeParseError::BadNumber)
    );
    let above = format!("{}b", usize::MAX as u128 + 1);
    assert_eq!(parse_size(&above), Err(SizeParseError::BadNumber));
}

#[test]
fn largest_size() {
    let largest = format!("{}b", usize::MAX);
    assert_eq!(parse_size(&largest), Ok(usize::MAX));
    let largest = format!("{}bytes", usize::MAX);
    assert_eq!(parse_size(&largest), Ok(usize::MAX));
    let most_kb = usize::MAX / KB;
    assert_eq!(parse_size(&format!("{most_kb}kb")), Ok(most_kb * KB));
    let most_gb = usize::MAX / GB;
    assert_eq!(parse_size(&format!("{most_gb}gb")), Ok(most_gb * GB));
}

#[test]
fn product_too_large() {
    assert_eq!(parse_size(&format!("{}kb", usize::MAX)), Err(SizeParseError::Overflow));
    assert_eq!(parse_size(&format!("{}kb", usize::MAX / KB + 1)), Err(SizeParseError::Overflow));
    assert_eq!(parse_size(&format!("{}mb", usize::MAX / MB + 1)), Err(SizeParseError::Overflow));
    assert_eq!(parse_size(&format!("{}gb", usize::MAX / GB + 1)), Err(SizeParseError::Overflow));
}

#[test]
fn leading_zeros() {
    assert_eq!(parse_size("0001kb"), Ok(1024));
    let long = format!("{}7b", "0".repeat(100));
    assert_eq!(parse_size(&long), Ok(7));
}

#[test]
fn unit_algebra_on_many_numbers() {
    let mut numbers: Vec<usize> = (0..3000).collect();
    numbers.extend([65_535, 65_536, 1_000_000, 4_194_303, usize::MAX / GB]);
    for k in numbers {
        assert_eq!(parse_size(&format!("{k}B")), Ok(k));
        assert_eq!(parse_size(&format!("{k}bytes")), Ok(k));
        assert_eq!(parse_size(&format!("{k}kb")), Ok(k * KB));
        assert_eq!(parse_size(&format!("{k}mb")), Ok(k * MB));
        assert_eq!(parse_size(&format!("{k}gb")), Ok(k * GB));
    }
}

#[test]
fn capitals_mean_the_same() {
    let texts = [
        "1b", "12bytes", "7kb", "20mb", "5gb", " 3kb ", "1024", "", "kb", "-1b", "1.5mb", "1tb",
        "1b2mb", "99999999999999999999999999kb", "1\u{212A}b", "1byte\u{17F}x",
    ];
    for text in texts {
        assert_eq!(parse_size(text), parse_size(&text.to_ascii_uppercase()), "{text:?}");
    }
    let overflowing = format!("{}gb", usize::MAX);
    assert_eq!(parse_size(&overflowing), parse_size(&overflowing.to_ascii_uppercase()));
}

#[test]
fn same_text_same_result() {
    for text in ["32bytes", "1024", "", "5GB", "9999999999999999999999b"] {
        assert_eq!(parse_size(text), parse_size(text));
        assert_eq!(parse_size(text), parse_size(&text.to_string()));
    }
}

#[test]
fn every_character_as_padding() {
    for c in '\0'..=char::MAX {
        let text = format!("{c}1b{c}");
        assert_eq!(parse_size(&text) == Ok(1), c.is_whitespace(), "{:?}", c);
    }
}

#[test]
fn every_character_in_the_unit() {
    for c in '\0'..=char::MAX {
        for text in [format!("1{c}b"), format!("1{c}"), format!("1byte{c}"), format!("{c}b")] {
            assert_eq!(parse_size(&text), by_the_book(&text), "{:?}", text);
        }
    }
}

#[test]
fn agrees_with_the_book() {
    let texts = [
        "1b", "12bytes", "7kb", "20mb", "5gb", " 3kb ", "1024", "", "kb", "-1b", "1.5mb", "1tb",
        "007MB", "\n42Kb\t", "18446744073709551615b", "18446744073709551616b", "4294967296b",
        "4294967295kb", "1 b", "１b", "1ｂ", "1\u{212A}B",
    ];
    for text in texts {
        assert_eq!(parse_size(text), by_the_book(text), "{text:?}");
    }
}

#[test]
fn messages() {
    assert_eq!(SizeParseError::EmptyDigits.message(), "Invalid number format");
    assert_eq!(SizeParseError::BadNumber.message(), "Invalid number format");
    assert_eq!(SizeParseError::UnknownUnit.message(), "Unknown unit");
    assert_eq!(SizeParseError::Overflow.message(), "Size out of range");
    assert!(parse_size("1024").unwrap_err().message().to_lowercase().contains("unit"));
}
