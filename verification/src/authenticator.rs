//! The calls into the `google_authenticator` crate. Nothing in this file is
//! proved: each contract states what that crate's source shows of the
//! function called.

use vstd::prelude::*;
use google_authenticator::{GAError, GoogleAuthenticator};
use crate::level::ErrorCorrectionLevel;
use crate::qr::{address_bytes, address_limit, effective_dimension, MAX_QR_DIMENSION};
use crate::base32::is_base32_symbol;
use crate::secret::accepted_secret;
use crate::totp::is_code;

verus! {

/// The error type of `google_authenticator`, passed on unopened.
#[verifier::external_type_specification]
#[verifier::external_body]
pub struct ExGAError(GAError);

/// The code that `GoogleAuthenticator::get_code` computes from a secret it
/// accepts and a time slice other than zero.
pub uninterp spec fn totp_digits(secret: Seq<char>, counter: u64) -> Seq<char>;

/// Calls `GoogleAuthenticator::get_code` with the default code length.
///
/// For a time slice other than zero the call reads no clock. It fails
/// exactly when the secret is shorter than 16 or longer than 128 bytes, or
/// holds a character that `base32::decode` has no value for: that decoder
/// takes the letters `A`-`Z` in either case, the digits `2`-`7` and the sign
/// `=`, and nothing else. Otherwise the call returns the HMAC-SHA1 code of
/// the slice, reduced to six decimal digits and padded with zeros in front.
/// Which digits they are is known here only by the name `totp_digits`.
#[verifier::external_body]
pub(crate) fn get_code(secret: &str, counter: u64) -> (code: Result<String, GAError>)
    requires
        counter != 0,
    ensures
        code is Ok <==> accepted_secret(secret@),
        code matches Ok(digits) ==> digits@ == totp_digits(secret@, counter) && is_code(digits@),
{
    GoogleAuthenticator::new().get_code(secret, counter)
}

/// Calls `GoogleAuthenticator::create_secret`, which draws `count` random
/// characters, each one of the 32 symbols `A`-`Z`, `2`-`7`.
#[verifier::external_body]
pub(crate) fn random_symbols(count: u8) -> (symbols: String)
    ensures
        symbols@.len() == count,
        forall|i: int| 0 <= i < symbols@.len() ==> is_base32_symbol(#[trigger] symbols@[i]),
{
    GoogleAuthenticator::new().create_secret(count)
}

/// The SVG text that `GoogleAuthenticator::qr_code` draws for a secret, a
/// name, a title, the least width and height in pixels and a level, or
/// `None` where it fails.
pub uninterp spec fn qr_svg(
    secret: Seq<char>,
    name: Seq<char>,
    title: Seq<char>,
    width: u32,
    height: u32,
    level: ErrorCorrectionLevel,
) -> Option<Seq<char>>;

/// Calls `GoogleAuthenticator::qr_code`, which writes the address
/// `otpauth://totp/NAME?secret=SECRET&issuer=TITLE`, name and title
/// percent-encoded and the secret as it is, and draws it as a QR code, in
/// SVG, at least `width` by `height` pixels large, a side of zero standing
/// for 200 pixels. The drawing depends on these arguments alone and is known
/// here only by the name `qr_svg`.
///
/// `requires` keeps the call clear of two sums that overflow, and panic
/// where overflow is checked.
///
/// The renderer adds the number of modules across, at most 185, to each
/// side before it divides; a side of at most `MAX_QR_DIMENSION` keeps that
/// within `u32`.
///
/// The encoder scores each mask in `u16`, and `address_limit` keeps the code
/// at 65 modules across or fewer (version 12), where the score is at most
/// 61,458: 2 * 65 * 63 = 8,190 for runs; 3 * 64 * 64 = 12,288 for blocks;
/// 2 * (40 * 8 * 65 - 360) = 40,880 for finder-like patterns; 100 for
/// balance. A line of 65 holds at most 8 patterns that count: each is seven
/// modules with four light ones, or the edge, on one side; between two such
/// light stretches lie one pattern, of 7 modules, or two, of 11 or more
/// together; so 11 modules go to one and 15 to two, and 65 + 4 hold 8.
///
/// An address of n bytes takes at most 18n + 10 bits in versions 10 to 26.
/// A segment of k bytes takes at most 20 + 8k bits there: the headers are
/// 16, 15, 20 and 14 bits for numeric, alphanumeric, byte and kanji. The
/// encoder keeps two neighbouring segments apart only where that is shorter
/// than one segment in their common mode, and two neighbours of three bytes
/// or fewer are never shorter apart: in one mode they save a header; numeric
/// beside alphanumeric takes 41 bits or more apart and 32 or fewer as one;
/// beside a byte segment the other takes 18 bits or more and costs 16 or
/// fewer as bytes; two kanji bytes beside one numeric or alphanumeric take
/// 47 or more apart and 44 as bytes. So two neighbours hold four bytes or
/// more, there are at most (n + 1) / 2 segments, and 8n + 20 (n + 1) / 2
/// bits. Version 12 holds 2,960, 2,320, 1,648 and 1,264 bits at the four
/// levels, which allows 163, 128, 91 and 69 bytes; an address that fits a
/// lower version is drawn at that.
#[verifier::external_body]
pub(crate) fn qr_code_svg(
    secret: &str,
    name: &str,
    title: &str,
    width: u32,
    height: u32,
    level: ErrorCorrectionLevel,
) -> (svg: Result<String, GAError>)
    requires
        width <= MAX_QR_DIMENSION,
        height <= MAX_QR_DIMENSION,
        address_bytes(secret@, name@, title@) <= address_limit(level),
    ensures
        match svg {
            Ok(image) => qr_svg(
                secret@,
                name@,
                title@,
                effective_dimension(width),
                effective_dimension(height),
                level,
            ) == Some(image@),
            Err(_) => qr_svg(
                secret@,
                name@,
                title@,
                effective_dimension(width),
                effective_dimension(height),
                level,
            ) is None,
        },
{
    let level = match level {
        ErrorCorrectionLevel::Low => google_authenticator::ErrorCorrectionLevel::Low,
        ErrorCorrectionLevel::Medium => google_authenticator::ErrorCorrectionLevel::Medium,
        ErrorCorrectionLevel::Quartile => google_authenticator::ErrorCorrectionLevel::Quartile,
        ErrorCorrectionLevel::High => google_authenticator::ErrorCorrectionLevel::High,
    };
    GoogleAuthenticator::new().qr_code(secret, name, title, width, height, level)
}

} // verus!
