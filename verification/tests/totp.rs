use gauth_generator::error::AuthError;
use gauth_generator::totp::{
    derive_code, is_match, time_counter, verify_code, CODE_DIGITS, TIME_STEP,
};

const SECRET: &str = "GEZDGNBVGY3TQOJQ";
const LONG_SECRET: &str = "GEZDGNBVGY3TQOJQGEZDGNBVGY3TQOJQ";

#[test]
fn known_vector() {
    assert_eq!(derive_code(SECRET, 1), Ok("263420".to_string()));
}

#[test]
fn known_vector_of_the_twenty_byte_secret() {
    assert_eq!(derive_code(LONG_SECRET, 1), Ok("287082".to_string()));
    assert_eq!(derive_code(LONG_SECRET, 2), Ok("359152".to_string()));
    assert_eq!(derive_code(LONG_SECRET, 3), Ok("969429".to_string()));
}

#[test]
fn code_of_a_present_day_counter() {
    let counter = 1523610659 / 30;
    assert_eq!(
        derive_code("I3VFM3JKMNDJCDH5BMBEEQAW6KJ6NOE3", counter),
        Ok("224124".to_string())
    );
}

#[test]
fn leading_zero_is_kept() {
    assert_eq!(derive_code(SECRET, 2), Ok("092045".to_string()));
}

#[test]
fn code_is_six_digits() {
    assert_eq!(CODE_DIGITS, 6);
    for counter in 1..200u64 {
        let code = derive_code(SECRET, counter).unwrap();
        assert_eq!(code.len(), 6);
        assert!(code.chars().all(|c| c.is_ascii_digit()));
    }
}

#[test]
fn derivation_is_deterministic() {
    for counter in [1u64, 2, 50787021, u64::MAX] {
        assert_eq!(derive_code(SECRET, counter), derive_code(SECRET, counter));
    }
}

#[test]
fn code_differs_from_the_secret() {
    assert_ne!(derive_code(SECRET, 1), Ok(SECRET.to_string()));
}

#[test]
fn counter_zero_is_refused() {
    assert_eq!(derive_code(SECRET, 0), Err(AuthError::ZeroCounter));
    assert_eq!(derive_code("not a secret", 0), Err(AuthError::ZeroCounter));
}

#[test]
fn short_secret_is_invalid() {
    assert_eq!(derive_code("GEZDGNBVGY3TQOJ", 1), Err(AuthError::InvalidSecret));
    assert_eq!(derive_code("", 1), Err(AuthError::InvalidSecret));
}

#[test]
fn long_secret_is_invalid() {
    let at_limit = "A".repeat(128);
    let over_limit = "A".repeat(129);
    assert!(derive_code(&at_limit, 1).is_ok());
    assert_eq!(derive_code(&over_limit, 1), Err(AuthError::InvalidSecret));
}

#[test]
fn secret_outside_the_alphabet_is_invalid() {
    assert_eq!(derive_code("GEZDGNBVGY3TQOJ1", 1), Err(AuthError::InvalidSecret));
    assert_eq!(derive_code("GEZDGNBVGY3TQOJ8", 1), Err(AuthError::InvalidSecret));
    assert_eq!(derive_code("GEZDGNBVGY3TQOJ!", 1), Err(AuthError::InvalidSecret));
    assert_eq!(derive_code("GEZDGNBVGY3TQO J", 1), Err(AuthError::InvalidSecret));
    assert_eq!(derive_code("GEZDGNBVGY3TQOJ\u{e9}", 1), Err(AuthError::InvalidSecret));
    assert_eq!(derive_code("GEZDGNBVGY3TQO[{", 1), Err(AuthError::InvalidSecret));
}

#[test]
fn secret_characters_are_letters_the_digits_two_to_seven_and_the_padding_sign() {
    for code in 0..0x300u32 {
        if let Some(c) = char::from_u32(code) {
            let mut secret = "A".repeat(15);
            secret.push(c);
            let takes = c.is_ascii_alphabetic() || ('2'..='7').contains(&c) || c == '=';
            assert_eq!(derive_code(&secret, 1).is_ok(), takes);
        }
    }
}

#[test]
fn secret_length_is_counted_in_characters_of_the_alphabet() {
    for length in 0..140usize {
        let secret = "B".repeat(length);
        assert_eq!(derive_code(&secret, 7).is_ok(), 16 <= length && length <= 128);
    }
}

#[test]
fn lower_case_secret_is_the_same_secret() {
    assert_eq!(derive_code("gezdgnbvgy3tqojq", 1), Ok("263420".to_string()));
}

#[test]
fn padded_secret_is_accepted() {
    assert_eq!(derive_code("GEZDGNBVGY3TQOJQGE======", 1), Ok("543561".to_string()));
}

#[test]
fn time_counter_is_the_half_minute() {
    assert_eq!(TIME_STEP, 30);
    assert_eq!(time_counter(0), 0);
    assert_eq!(time_counter(29), 0);
    assert_eq!(time_counter(30), 1);
    assert_eq!(time_counter(59), 1);
    assert_eq!(time_counter(1523610659), 50787021);
    assert_eq!(time_counter(u64::MAX), 614891469123651720);
}

#[test]
fn time_counter_never_runs_backwards() {
    let mut last = 0;
    for t in 0..400u64 {
        let c = time_counter(t);
        assert!(last <= c);
        last = c;
    }
}

#[test]
fn zero_discrepancy_checks_one_counter() {
    // counter 6 covers the seconds 180 to 209
    for t in [180u64, 195, 209] {
        assert!(verify_code(SECRET, "236585", 0, t, 0));
        assert!(!verify_code(SECRET, "767654", 0, t, 0));
        assert!(!verify_code(SECRET, "632007", 0, t, 0));
        let exact = derive_code(SECRET, time_counter(t)).unwrap();
        assert!(verify_code(SECRET, &exact, 0, t, 0));
    }
    assert!(!verify_code(SECRET, "236585", 0, 179, 0));
    assert!(!verify_code(SECRET, "236585", 0, 210, 0));
}

#[test]
fn window_reaches_both_ways() {
    let base_time = 6 * 30;
    // the codes of the counters 5, 6 and 7
    for code in ["767654", "236585", "632007"] {
        assert!(verify_code(SECRET, code, 1, base_time, 0));
    }
    // the codes of the counters 4 and 8 lie outside
    let below = derive_code(SECRET, 4).unwrap();
    let above = derive_code(SECRET, 8).unwrap();
    assert!(!verify_code(SECRET, &below, 1, base_time, 0));
    assert!(!verify_code(SECRET, &above, 1, base_time, 0));
    assert!(verify_code(SECRET, &below, 2, base_time, 0));
    assert!(verify_code(SECRET, &above, 2, base_time, 0));
}

#[test]
fn window_covers_every_counter_in_it() {
    let base: u64 = 50;
    let discrepancy: u64 = 3;
    for counter in 40..60u64 {
        let code = derive_code(SECRET, counter).unwrap();
        let inside = base - discrepancy <= counter && counter <= base + discrepancy;
        let elsewhere = (base - discrepancy..=base + discrepancy)
            .any(|c| derive_code(SECRET, c).unwrap() == code);
        assert_eq!(verify_code(SECRET, &code, discrepancy, base * 30, 0), inside || elsewhere);
    }
}

#[test]
fn reference_time_zero_means_now() {
    assert!(verify_code(SECRET, "236585", 0, 0, 185));
    assert!(!verify_code(SECRET, "236585", 0, 0, 215));
    // a reference time is used as it is, whatever the clock says
    assert!(verify_code(SECRET, "236585", 0, 185, 215));
    assert!(!verify_code(SECRET, "236585", 0, 215, 185));
}

#[test]
fn present_day_code_verifies_with_skew() {
    let secret = "I3VFM3JKMNDJCDH5BMBEEQAW6KJ6NOE3";
    assert!(verify_code(secret, "224124", 3, 1523610659, 0));
    assert!(verify_code(secret, "224124", 0, 1523610659, 0));
    assert!(verify_code(secret, "224124", 1, 1523610659 + 30, 0));
    assert!(!verify_code(secret, "224124", 0, 1523610659 + 30, 0));
    assert!(!verify_code(secret, "224125", 3, 1523610659, 0));
}

#[test]
fn malformed_secret_never_verifies() {
    assert!(!verify_code("short", "263420", 5, 30, 0));
    assert!(!verify_code("GEZDGNBVGY3TQOJ1", "263420", 5, 30, 0));
    assert!(!verify_code("", "", 0, 30, 0));
}

#[test]
fn malformed_code_never_verifies() {
    assert!(!verify_code(SECRET, "", 2, 30, 0));
    assert!(!verify_code(SECRET, "26342", 2, 30, 0));
    assert!(!verify_code(SECRET, "2634200", 2, 30, 0));
    assert!(!verify_code(SECRET, "26342O", 2, 30, 0));
    assert!(!verify_code(SECRET, " 263420", 2, 30, 0));
}

#[test]
fn counter_zero_matches_nothing() {
    // the first half minute has counter zero, for which no code is derived
    for code in ["263420", "092045", "000000"] {
        assert!(!verify_code(SECRET, code, 0, 10, 0));
    }
    // a window that starts at counter zero still reaches the counters above it
    assert!(verify_code(SECRET, "263420", 1, 10, 0));
    assert!(verify_code(SECRET, "092045", 2, 10, 0));
    assert!(verify_code(SECRET, "092045", 5, 10, 0));
}

#[test]
fn window_at_the_end_of_time_stops_there() {
    let last = derive_code(SECRET, 614891469123651720).unwrap();
    assert_eq!(last, "537744");
    assert!(verify_code(SECRET, &last, 0, u64::MAX, 0));
    assert!(verify_code(SECRET, &last, 2, u64::MAX, 0));
    assert!(verify_code(SECRET, &last, 2, u64::MAX - 60, 0));
}

#[test]
fn derived_code_is_matched_character_for_character() {
    let derived = Ok("092045".to_string());
    assert!(is_match(&derived, "092045"));
    assert!(!is_match(&derived, "92045"));
    assert!(!is_match(&derived, "092046"));
    assert!(!is_match(&derived, "0920450"));
    assert!(!is_match(&derived, ""));
    assert!(is_match(&derive_code(SECRET, 2), "092045"));
}

#[test]
fn failed_derivation_matches_nothing() {
    assert!(!is_match(&Err(AuthError::InvalidSecret), ""));
    assert!(!is_match(&Err(AuthError::InvalidSecret), "263420"));
    assert!(!is_match(&Err(AuthError::ZeroCounter), "263420"));
    assert!(!is_match(&derive_code(SECRET, 0), "263420"));
}

#[test]
fn derived_code_verifies_at_its_own_time() {
    for t in [30u64, 31, 59, 1523610659, u64::MAX] {
        let code = derive_code(LONG_SECRET, time_counter(t)).unwrap();
        for discrepancy in [0u64, 1, 4] {
            assert!(verify_code(LONG_SECRET, &code, discrepancy, t, 0));
        }
    }
}
