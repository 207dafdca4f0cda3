use zedi_gen::calendar::{civil_from_days, date_string_of_days, format_date_dashed};
use zedi_gen::errors::Error;
use zedi_gen::strfmt::{cents_to_string, pad_spaces_right, u64_to_dec, u64_to_dec_pad};

#[test]
fn decimal_rendering_is_exact() {
    assert_eq!(u64_to_dec(0), "0");
    assert_eq!(u64_to_dec(7), "7");
    assert_eq!(u64_to_dec(1234567890), "1234567890");
    assert_eq!(u64_to_dec_pad(42, 8), "00000042");
    assert_eq!(u64_to_dec_pad(123456789, 8), "123456789");
    assert_eq!(pad_spaces_right("AB".to_string(), 5), "AB   ");
    assert_eq!(pad_spaces_right("ABCDEF".to_string(), 5), "ABCDEF");
}

#[test]
fn cents_render_with_two_decimals() {
    assert_eq!(cents_to_string(100050), "1000.50");
    assert_eq!(cents_to_string(5), "0.05");
    assert_eq!(cents_to_string(99), "0.99");
    assert_eq!(cents_to_string(100), "1.00");
    assert_eq!(cents_to_string(0), "0.00");
}

#[test]
fn calendar_conversion_matches_known_dates() {
    assert_eq!(civil_from_days(1), (1, 1, 1));
    assert_eq!(civil_from_days(719163), (1970, 1, 1));
    assert_eq!(civil_from_days(739252), (2025, 1, 1));
    assert_eq!(civil_from_days(730179), (2000, 2, 29));
    assert_eq!(date_string_of_days(719163), "1970-01-01");
    assert_eq!(format_date_dashed(2023, 5, 18), "2023-05-18");
}

#[test]
fn error_messages_carry_their_category() {
    assert_eq!(
        Error::Io("sink closed".to_string()).message(),
        "I/O error: sink closed"
    );
    assert_eq!(Error::Json("bad".to_string()).message(), "JSON error: bad");
    assert_eq!(
        Error::Toml("bad".to_string()).message(),
        "TOML serialization error: bad"
    );
    assert_eq!(
        Error::TomlDe("bad".to_string()).message(),
        "TOML deserialization error: bad"
    );
    assert_eq!(
        Error::Config("bad".to_string()).message(),
        "Configuration error: bad"
    );
    assert_eq!(
        Error::Validation("bad".to_string()).message(),
        "Validation error: bad"
    );
    assert_eq!(
        Error::Generation("bad".to_string()).message(),
        "Generation error: bad"
    );
}
