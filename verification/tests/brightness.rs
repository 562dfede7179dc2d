use hue_cli::brightness::{bridge_brightness, validate_bri_value, BrightnessError};
use hue_cli::text::render_decimal;

fn scaled_in_floating_point(percent: u8) -> u16 {
    (((percent as f32) / 100.0) * 255.0).floor() as u16
}

fn read_by_std(text: &str) -> Result<u8, String> {
    match text.parse::<u8>() {
        Ok(value) => {
            if value <= 100 {
                Ok(value)
            } else {
                Err(String::from("Brightness value not between 0 and 100"))
            }
        }
        Err(error) => Err(error.to_string()),
    }
}

#[test]
fn brightness_scale_endpoints() {
    assert_eq!(bridge_brightness(0), 0);
    assert_eq!(bridge_brightness(50), 127);
    assert_eq!(bridge_brightness(100), 255);
}

#[test]
fn brightness_scale_examples() {
    assert_eq!(bridge_brightness(1), 2);
    assert_eq!(bridge_brightness(20), 51);
    assert_eq!(bridge_brightness(33), 84);
    assert_eq!(bridge_brightness(99), 252);
}

#[test]
fn brightness_scale_is_the_rounded_down_rescaling() {
    for percent in 0..=255u8 {
        assert_eq!(bridge_brightness(percent), scaled_in_floating_point(percent), "at {}", percent);
    }
}

#[test]
fn brightness_scale_stays_in_range_for_percentages() {
    for percent in 0..=100u8 {
        assert!(bridge_brightness(percent) <= 255);
    }
}

#[test]
fn brightness_text_is_read() {
    assert_eq!(validate_bri_value("0"), Ok(0));
    assert_eq!(validate_bri_value("7"), Ok(7));
    assert_eq!(validate_bri_value("50"), Ok(50));
    assert_eq!(validate_bri_value("100"), Ok(100));
}

#[test]
fn brightness_text_may_have_a_plus_sign_and_leading_zeros() {
    assert_eq!(validate_bri_value("+42"), Ok(42));
    assert_eq!(validate_bri_value("007"), Ok(7));
    assert_eq!(validate_bri_value("+0100"), Ok(100));
    assert_eq!(validate_bri_value("0000000000000000000000012"), Ok(12));
}

#[test]
fn brightness_above_one_hundred_is_out_of_range() {
    assert_eq!(validate_bri_value("101"), Err(BrightnessError::OutOfRange));
    assert_eq!(validate_bri_value("200"), Err(BrightnessError::OutOfRange));
    assert_eq!(validate_bri_value("255"), Err(BrightnessError::OutOfRange));
}

#[test]
fn brightness_above_eight_bits_is_too_large() {
    assert_eq!(validate_bri_value("256"), Err(BrightnessError::TooLarge));
    assert_eq!(validate_bri_value("1000"), Err(BrightnessError::TooLarge));
    assert_eq!(validate_bri_value("99999999999999999999999"), Err(BrightnessError::TooLarge));
}

#[test]
fn brightness_of_no_text_is_empty() {
    assert_eq!(validate_bri_value(""), Err(BrightnessError::Empty));
}

#[test]
fn brightness_with_other_characters_is_an_invalid_digit() {
    assert_eq!(validate_bri_value("abc"), Err(BrightnessError::InvalidDigit));
    assert_eq!(validate_bri_value("-1"), Err(BrightnessError::InvalidDigit));
    assert_eq!(validate_bri_value("+"), Err(BrightnessError::InvalidDigit));
    assert_eq!(validate_bri_value("-"), Err(BrightnessError::InvalidDigit));
    assert_eq!(validate_bri_value("50.5"), Err(BrightnessError::InvalidDigit));
    assert_eq!(validate_bri_value("50%"), Err(BrightnessError::InvalidDigit));
    assert_eq!(validate_bri_value(" 50"), Err(BrightnessError::InvalidDigit));
    assert_eq!(validate_bri_value("50 "), Err(BrightnessError::InvalidDigit));
    assert_eq!(validate_bri_value("++5"), Err(BrightnessError::InvalidDigit));
    assert_eq!(validate_bri_value("５"), Err(BrightnessError::InvalidDigit));
    assert_eq!(validate_bri_value("1é"), Err(BrightnessError::InvalidDigit));
}

#[test]
fn brightness_error_depends_on_what_comes_first() {
    assert_eq!(validate_bri_value("25x"), Err(BrightnessError::InvalidDigit));
    assert_eq!(validate_bri_value("255x"), Err(BrightnessError::InvalidDigit));
    assert_eq!(validate_bri_value("256x"), Err(BrightnessError::TooLarge));
    assert_eq!(validate_bri_value("999x"), Err(BrightnessError::TooLarge));
    assert_eq!(validate_bri_value("x999"), Err(BrightnessError::InvalidDigit));
}

#[test]
fn brightness_reasons_and_lines() {
    assert_eq!(BrightnessError::Empty.reason(), "cannot parse integer from empty string");
    assert_eq!(BrightnessError::InvalidDigit.reason(), "invalid digit found in string");
    assert_eq!(BrightnessError::TooLarge.reason(), "number too large to fit in target type");
    assert_eq!(BrightnessError::OutOfRange.reason(), "Brightness value not between 0 and 100");
    assert_eq!(
        BrightnessError::OutOfRange.message(),
        "Unable to set brightness: Brightness value not between 0 and 100"
    );
    assert_eq!(
        BrightnessError::InvalidDigit.message(),
        "Unable to set brightness: invalid digit found in string"
    );
}

#[test]
fn brightness_is_read_as_the_standard_library_reads_it() {
    let samples = [
        "", "0", "1", "9", "10", "99", "100", "101", "199", "200", "255", "256", "260", "300",
        "999", "1000", "+", "-", "+0", "-0", "+7", "-7", "+100", "+101", "+256", "00", "000100",
        "0256", "1a", "a1", "25a", "256a", "2560", "25 ", " 25", "2 5", "1e2", "1.0", "0x10",
        "١٢", "12é", "é12", "++1", "+-1", "1+", "100%", "\n", "1\n", "\u{0}", "4294967296",
        "18446744073709551616",
    ];
    for sample in samples {
        let ours = validate_bri_value(sample).map_err(|error| String::from(error.reason()));
        assert_eq!(ours, read_by_std(sample), "for {:?}", sample);
    }
}

#[test]
fn every_three_character_text_of_digits_and_marks_is_read_as_the_standard_library_reads_it() {
    let alphabet = ['0', '1', '2', '5', '6', '9', '+', '-', 'x', ' '];
    for a in alphabet {
        for b in alphabet {
            for c in alphabet {
                let sample: String = [a, b, c].iter().collect();
                let ours = validate_bri_value(&sample).map_err(|error| String::from(error.reason()));
                assert_eq!(ours, read_by_std(&sample), "for {:?}", sample);
            }
        }
    }
}

#[test]
fn every_percentage_written_in_decimal_is_read_back() {
    for percent in 0..=100u8 {
        let text = render_decimal(percent as u64);
        assert_eq!(validate_bri_value(&text), Ok(percent));
    }
    for above in 101..=255u64 {
        assert_eq!(validate_bri_value(&render_decimal(above)), Err(BrightnessError::OutOfRange));
    }
}

#[test]
fn decimal_is_written_as_the_standard_library_writes_it() {
    let samples = [0u64, 1, 9, 10, 11, 99, 100, 127, 255, 1000, 65535, 4294967295, u64::MAX];
    for sample in samples {
        assert_eq!(render_decimal(sample), sample.to_string());
    }
}
