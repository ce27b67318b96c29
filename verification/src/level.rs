use vstd::prelude::*;
use crate::error::AuthError;
use crate::text::same_text;

verus! {

/// How much damage a QR code can take and still be read.
#[derive(Clone, Copy, Debug, PartialEq, Eq, Structural)]
pub enum ErrorCorrectionLevel {
    /// 7% of the data can be restored.
    Low,
    /// 15% of the data can be restored.
    Medium,
    /// 25% of the data can be restored.
    Quartile,
    /// 30% of the data can be restored.
    High,
}

/// The lower-case form of a text, as `str::to_lowercase` gives it.
pub uninterp spec fn lowercase_of(text: Seq<char>) -> Seq<char>;

/// Whether every character of a text is an ASCII character.
pub open spec fn is_ascii_text(text: Seq<char>) -> bool {
    forall|i: int| 0 <= i < text.len() ==> (#[trigger] text[i] as u32) < 128
}

/// An ASCII character in lower case: `A`-`Z` become `a`-`z`, every other
/// character stays.
pub open spec fn ascii_lowercase_char(c: char) -> char {
    if 'A' <= c && c <= 'Z' {
        ((c as u32) + 32) as char
    } else {
        c
    }
}

/// An ASCII text in lower case, character by character.
pub open spec fn ascii_lowercase(text: Seq<char>) -> Seq<char> {
    Seq::new(text.len(), |i: int| ascii_lowercase_char(text[i]))
}

/// Calls `str::to_lowercase`. Its result depends on the text alone and is
/// known here by the name `lowercase_of`. Of a text of ASCII characters it
/// is the text with `A`-`Z` replaced by `a`-`z`, which is all that Unicode
/// lower case does to ASCII.
#[verifier::external_body]
fn lowercase(text: &str) -> (lowered: String)
    ensures
        lowered@ == lowercase_of(text@),
        is_ascii_text(text@) ==> lowered@ == ascii_lowercase(text@),
{
    text.to_lowercase()
}

/// The level that a lower-case token names, if it names one.
pub open spec fn level_of_token(token: Seq<char>) -> Option<ErrorCorrectionLevel> {
    if token == seq!['l'] || token == seq!['l', 'o', 'w'] || token == seq!['0'] {
        Some(ErrorCorrectionLevel::Low)
    } else if token == seq!['m'] || token == seq!['m', 'e', 'd', 'i', 'u', 'm'] || token == seq![
        '1',
    ] {
        Some(ErrorCorrectionLevel::Medium)
    } else if token == seq!['q'] || token == seq!['q', 'u', 'a', 'r', 't', 'i', 'l', 'e']
        || token == seq!['2'] {
        Some(ErrorCorrectionLevel::Quartile)
    } else if token == seq!['h'] || token == seq!['h', 'i', 'g', 'h'] || token == seq!['3'] {
        Some(ErrorCorrectionLevel::High)
    } else {
        None
    }
}

/// Reads a token that is already in lower case.
pub fn recognize_level(token: &str) -> (level: Option<ErrorCorrectionLevel>)
    ensures
        level == level_of_token(token@),
{
    proof {
        reveal_strlit("l");
        reveal_strlit("low");
        reveal_strlit("0");
        reveal_strlit("m");
        reveal_strlit("medium");
        reveal_strlit("1");
        reveal_strlit("q");
        reveal_strlit("quartile");
        reveal_strlit("2");
        reveal_strlit("h");
        reveal_strlit("high");
        reveal_strlit("3");
        assert("l"@ =~= seq!['l']);
        assert("low"@ =~= seq!['l', 'o', 'w']);
        assert("0"@ =~= seq!['0']);
        assert("m"@ =~= seq!['m']);
        assert("medium"@ =~= seq!['m', 'e', 'd', 'i', 'u', 'm']);
        assert("1"@ =~= seq!['1']);
        assert("q"@ =~= seq!['q']);
        assert("quartile"@ =~= seq!['q', 'u', 'a', 'r', 't', 'i', 'l', 'e']);
        assert("2"@ =~= seq!['2']);
        assert("h"@ =~= seq!['h']);
        assert("high"@ =~= seq!['h', 'i', 'g', 'h']);
        assert("3"@ =~= seq!['3']);
    }
    if same_text(token, "l") || same_text(token, "low") || same_text(token, "0") {
        Some(ErrorCorrectionLevel::Low)
    } else if same_text(token, "m") || same_text(token, "medium") || same_text(token, "1") {
        Some(ErrorCorrectionLevel::Medium)
    } else if same_text(token, "q") || same_text(token, "quartile") || same_text(token, "2") {
        Some(ErrorCorrectionLevel::Quartile)
    } else if same_text(token, "h") || same_text(token, "high") || same_text(token, "3") {
        Some(ErrorCorrectionLevel::High)
    } else {
        None
    }
}

/// What `parse_error_correction_level` returns for a token whose lower-case
/// form is `lowered`.
pub open spec fn parsed_level(lowered: Seq<char>) -> Result<ErrorCorrectionLevel, AuthError> {
    match level_of_token(lowered) {
        Some(l) => Ok(l),
        None => Err(AuthError::InvalidErrorCorrectionLevel),
    }
}

/// Reads an error-correction level from a user's token, in any letter case:
/// `l`, `low` or `0`; `m`, `medium` or `1`; `q`, `quartile` or `2`; `h`,
/// `high` or `3`. Any other token is refused.
pub fn parse_error_correction_level(ecl: &str) -> (level: Result<ErrorCorrectionLevel, AuthError>)
    ensures
        level == parsed_level(lowercase_of(ecl@)),
        is_ascii_text(ecl@) ==> level == parsed_level(ascii_lowercase(ecl@)),
{
    let lowered = lowercase(ecl);
    match recognize_level(lowered.as_str()) {
        Some(l) => Ok(l),
        None => Err(AuthError::InvalidErrorCorrectionLevel),
    }
}

} // verus!
