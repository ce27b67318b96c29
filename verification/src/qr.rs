use vstd::prelude::*;
use vstd::string::*;
use vstd::utf8::encode_utf8;
use crate::authenticator::{qr_code_svg, qr_svg};
use crate::error::AuthError;
use crate::level::ErrorCorrectionLevel;
use crate::uri::{percent_encode, percent_encoded};

verus! {

/// The side of a QR code that is asked for where none is given, in pixels.
pub const DEFAULT_QR_DIMENSION: u32 = 200;

/// The largest side, in pixels, that a QR code can be asked to have.
pub const MAX_QR_DIMENSION: u32 = 4_294_967_110;

/// The least side that is asked of the renderer: the side given, or the
/// default where zero is given.
pub open spec fn effective_dimension(side: u32) -> u32 {
    if side == 0 {
        DEFAULT_QR_DIMENSION
    } else {
        side
    }
}

/// The bytes of the address that the renderer draws for a secret, a name
/// and a title: 31 bytes of `otpauth://totp/`, `?secret=` and `&issuer=`,
/// the secret in UTF-8, and name and title percent-encoded.
pub open spec fn address_bytes(secret: Seq<char>, name: Seq<char>, title: Seq<char>) -> nat {
    31 + encode_utf8(secret).len() + percent_encoded(name).len() + percent_encoded(title).len()
}

/// The longest address, in bytes, that is handed to the renderer at a
/// level: one that is sure to fit a QR code of 65 modules across.
pub open spec fn address_limit(level: ErrorCorrectionLevel) -> nat {
    match level {
        ErrorCorrectionLevel::Low => 163,
        ErrorCorrectionLevel::Medium => 128,
        ErrorCorrectionLevel::Quartile => 91,
        ErrorCorrectionLevel::High => 69,
    }
}

/// The label of a provisioning address: issuer, colon, account name.
pub open spec fn qr_label(account_name: Seq<char>, issuer: Seq<char>) -> Seq<char> {
    issuer + seq![':'] + account_name
}

/// What `qr_code` returns, with the image as a sequence of characters.
pub open spec fn qr_code_result(
    secret: Seq<char>,
    account_name: Seq<char>,
    issuer: Seq<char>,
    width: u32,
    height: u32,
    level: ErrorCorrectionLevel,
) -> Result<Seq<char>, AuthError> {
    if width > MAX_QR_DIMENSION || height > MAX_QR_DIMENSION {
        Err(AuthError::RenderError)
    } else if address_bytes(secret, qr_label(account_name, issuer), issuer) > address_limit(level) {
        Err(AuthError::RenderError)
    } else {
        match qr_svg(
            secret,
            qr_label(account_name, issuer),
            issuer,
            effective_dimension(width),
            effective_dimension(height),
            level,
        ) {
            Some(image) => Ok(image),
            None => Err(AuthError::RenderError),
        }
    }
}

/// A rendered image, or its error, with the image as a sequence of
/// characters.
pub open spec fn image_view(image: Result<String, AuthError>) -> Result<Seq<char>, AuthError> {
    match image {
        Ok(svg) => Ok(svg@),
        Err(e) => Err(e),
    }
}

/// The longest address, in bytes, that `qr_code` draws at a level.
pub fn max_address_bytes(level: ErrorCorrectionLevel) -> (limit: usize)
    ensures
        limit == address_limit(level),
{
    match level {
        ErrorCorrectionLevel::Low => 163,
        ErrorCorrectionLevel::Medium => 128,
        ErrorCorrectionLevel::Quartile => 91,
        ErrorCorrectionLevel::High => 69,
    }
}

/// Draws the provisioning QR code of a secret as an SVG image at least
/// `width` by `height` pixels large; a side of zero stands for 200 pixels.
///
/// The renderer is handed the label `issuer:account_name`, the secret and
/// the issuer, and composes the address itself: the address of `build_uri`,
/// but with the colon of the label escaped as `%3A`, which a reader of the
/// code undoes.
///
/// It fails with `RenderError` where a side is larger than
/// `MAX_QR_DIMENSION`, where the address is longer than
/// `max_address_bytes(level)`, or where the renderer turns the request
/// down.
pub fn qr_code(
    secret: &str,
    account_name: &str,
    issuer: &str,
    width: u32,
    height: u32,
    level: ErrorCorrectionLevel,
) -> (image: Result<String, AuthError>)
    ensures
        image_view(image) == qr_code_result(
            secret@,
            account_name@,
            issuer@,
            width,
            height,
            level,
        ),
{
    if width > MAX_QR_DIMENSION || height > MAX_QR_DIMENSION {
        return Err(AuthError::RenderError);
    }
    let mut label = issuer.to_owned();
    label.append(":");
    label.append(account_name);
    proof {
        reveal_strlit(":");
        assert(":"@ =~= seq![':']);
    }
    let limit = max_address_bytes(level);
    let secret_bytes = secret.as_bytes().len();
    let label_bytes = percent_encode(label.as_str()).as_str().unicode_len();
    let issuer_bytes = percent_encode(issuer).as_str().unicode_len();
    if secret_bytes > limit || label_bytes > limit || issuer_bytes > limit || 31 + secret_bytes
        + label_bytes + issuer_bytes > limit {
        return Err(AuthError::RenderError);
    }
    match qr_code_svg(secret, label.as_str(), issuer, width, height, level) {
        Ok(svg) => Ok(svg),
        Err(_) => Err(AuthError::RenderError),
    }
}

} // verus!
