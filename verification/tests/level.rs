use gauth_generator::error::AuthError;
use gauth_generator::level::{parse_error_correction_level, recognize_level, ErrorCorrectionLevel};

#[test]
fn tokens_of_each_level() {
    for token in ["l", "low", "0"] {
        assert_eq!(parse_error_correction_level(token), Ok(ErrorCorrectionLevel::Low));
    }
    for token in ["m", "medium", "1"] {
        assert_eq!(parse_error_correction_level(token), Ok(ErrorCorrectionLevel::Medium));
    }
    for token in ["q", "quartile", "2"] {
        assert_eq!(parse_error_correction_level(token), Ok(ErrorCorrectionLevel::Quartile));
    }
    for token in ["h", "high", "3"] {
        assert_eq!(parse_error_correction_level(token), Ok(ErrorCorrectionLevel::High));
    }
}

#[test]
fn tokens_in_any_letter_case() {
    assert_eq!(parse_error_correction_level("LOW"), Ok(ErrorCorrectionLevel::Low));
    assert_eq!(parse_error_correction_level("L"), Ok(ErrorCorrectionLevel::Low));
    assert_eq!(parse_error_correction_level("Medium"), Ok(ErrorCorrectionLevel::Medium));
    assert_eq!(parse_error_correction_level("qUaRtIlE"), Ok(ErrorCorrectionLevel::Quartile));
    assert_eq!(parse_error_correction_level("HIGH"), Ok(ErrorCorrectionLevel::High));
}

#[test]
fn unrecognized_token_is_refused() {
    for token in ["", "x", "lo", "lows", " low", "low ", "4", "-1", "00", "medium1", "highest"] {
        assert_eq!(
            parse_error_correction_level(token),
            Err(AuthError::InvalidErrorCorrectionLevel)
        );
    }
}

#[test]
fn recognize_level_reads_lower_case_only() {
    assert_eq!(recognize_level("low"), Some(ErrorCorrectionLevel::Low));
    assert_eq!(recognize_level("1"), Some(ErrorCorrectionLevel::Medium));
    assert_eq!(recognize_level("q"), Some(ErrorCorrectionLevel::Quartile));
    assert_eq!(recognize_level("high"), Some(ErrorCorrectionLevel::High));
    assert_eq!(recognize_level("LOW"), None);
    assert_eq!(recognize_level("High"), None);
    assert_eq!(recognize_level(""), None);
}

#[test]
fn error_messages() {
    assert_eq!(
        AuthError::InvalidErrorCorrectionLevel.message(),
        "Invalid error correction level. Choose one from [low, medium, quartile, high]."
    );
    assert_eq!(
        AuthError::InvalidSecret.message(),
        "Invalid secret: expected 16 to 128 Base32 characters."
    );
    assert_eq!(AuthError::ZeroCounter.message(), "Time counter zero is not supported.");
    assert_eq!(AuthError::FilesystemError.message(), "No free output file name was found.");
    assert_eq!(AuthError::RenderError.message(), "The QR code could not be rendered.");
}

#[test]
fn upper_case_ascii_is_lowered_letter_by_letter() {
    for (upper, level) in [
        ("L", ErrorCorrectionLevel::Low),
        ("M", ErrorCorrectionLevel::Medium),
        ("Q", ErrorCorrectionLevel::Quartile),
        ("H", ErrorCorrectionLevel::High),
        ("LoW", ErrorCorrectionLevel::Low),
        ("MEDIUM", ErrorCorrectionLevel::Medium),
        ("QUARTILE", ErrorCorrectionLevel::Quartile),
        ("hIGH", ErrorCorrectionLevel::High),
    ] {
        assert_eq!(parse_error_correction_level(upper), Ok(level));
    }
    // digits and signs have no other case
    assert_eq!(parse_error_correction_level("0"), Ok(ErrorCorrectionLevel::Low));
    assert!(parse_error_correction_level("L0W").is_err());
    assert!(parse_error_correction_level("l_w").is_err());
    assert!(parse_error_correction_level("\u{212a}").is_err());
}
