use vstd::prelude::*;
use vstd::string::*;
use vstd::utf8::encode_utf8;

verus! {

/// A byte that stands for itself in an escaped text: an ASCII letter or
/// digit.
pub open spec fn is_plain_byte(byte: u8) -> bool {
    (0x30 <= byte <= 0x39) || (0x41 <= byte <= 0x5a) || (0x61 <= byte <= 0x7a)
}

/// The upper-case hexadecimal digit for a value below 16.
pub open spec fn hex_digit(value: u8) -> char {
    if value < 10 {
        (0x30 + value) as char
    } else {
        (0x37 + value) as char
    }
}

/// One byte, escaped: itself if it is plain, else `%` and its two
/// hexadecimal digits.
pub open spec fn escaped_byte(byte: u8) -> Seq<char> {
    if is_plain_byte(byte) {
        seq![byte as char]
    } else {
        seq!['%', hex_digit(byte / 16), hex_digit(byte % 16)]
    }
}

/// Every byte of a sequence, escaped, in order.
pub open spec fn escaped_bytes(bytes: Seq<u8>) -> Seq<char>
    decreases bytes.len(),
{
    if bytes.len() == 0 {
        Seq::empty()
    } else {
        escaped_bytes(bytes.drop_last()) + escaped_byte(bytes.last())
    }
}

/// A text, percent-encoded: every byte of its UTF-8 form that is not an
/// ASCII letter or digit is escaped.
pub open spec fn percent_encoded(text: Seq<char>) -> Seq<char> {
    escaped_bytes(encode_utf8(text))
}

/// The provisioning address of a secret for an account at an issuer.
pub open spec fn otpauth_uri(secret: Seq<char>, account_name: Seq<char>, issuer: Seq<char>) -> Seq<
    char,
> {
    "otpauth://totp/"@ + percent_encoded(issuer) + seq![':'] + percent_encoded(account_name)
        + "?secret="@ + secret + "&issuer="@ + percent_encoded(issuer)
}

/// The upper-case hexadecimal digit for a value below 16.
fn hex_char(value: u8) -> (digit: char)
    requires
        value < 16,
    ensures
        digit == hex_digit(value),
{
    if value < 10 {
        (0x30 + value) as char
    } else {
        (0x37 + value) as char
    }
}

/// Percent-encodes a text, leaving only ASCII letters and digits as they
/// are.
pub fn percent_encode(text: &str) -> (escaped: String)
    ensures
        escaped@ == percent_encoded(text@),
{
    let bytes = text.as_bytes();
    let mut escaped = String::new();
    let mut i: usize = 0;
    while i < bytes.len()
        invariant
            i <= bytes.len(),
            bytes@ == encode_utf8(text@),
            escaped@ == escaped_bytes(bytes@.take(i as int)),
        decreases bytes.len() - i,
    {
        let byte = bytes[i];
        proof {
            assert(bytes@.take(i + 1).drop_last() =~= bytes@.take(i as int));
            assert(bytes@.take(i + 1).last() == byte);
        }
        if (0x30 <= byte && byte <= 0x39) || (0x41 <= byte && byte <= 0x5a) || (0x61 <= byte
            && byte <= 0x7a) {
            escaped.push(byte as char);
        } else {
            escaped.push('%');
            escaped.push(hex_char(byte / 16));
            escaped.push(hex_char(byte % 16));
        }
        i = i + 1;
    }
    proof {
        assert(bytes@.take(i as int) =~= bytes@);
    }
    escaped
}

/// Composes the `otpauth://totp/` address of a secret: the label `issuer`,
/// a colon, `account_name`; then the secret and the issuer as parameters.
/// Issuer and account name are percent-encoded, the secret is written as it
/// is.
///
/// This is the address as text. `qr_code` does not draw this text: it hands
/// label, secret and issuer to the renderer, which writes the same address
/// with the colon of the label escaped as `%3A`.
pub fn build_uri(secret: &str, account_name: &str, issuer: &str) -> (uri: String)
    ensures
        uri@ == otpauth_uri(secret@, account_name@, issuer@),
{
    let issuer_escaped = percent_encode(issuer);
    let account_escaped = percent_encode(account_name);
    let mut uri = "otpauth://totp/".to_owned();
    uri.append(issuer_escaped.as_str());
    uri.push(':');
    uri.append(account_escaped.as_str());
    uri.append("?secret=");
    uri.append(secret);
    uri.append("&issuer=");
    uri.append(issuer_escaped.as_str());
    uri
}

/// A character that an escaped text is made of: an ASCII letter or digit,
/// or the percent sign.
pub open spec fn is_escaped_char(c: char) -> bool {
    ('0' <= c && c <= '9') || ('A' <= c && c <= 'Z') || ('a' <= c && c <= 'z') || c == '%'
}

proof fn lemma_escaped_bytes_are_plain(bytes: Seq<u8>)
    ensures
        forall|i: int|
            0 <= i < escaped_bytes(bytes).len() ==> is_escaped_char(#[trigger] escaped_bytes(bytes)[i]),
    decreases bytes.len(),
{
    if bytes.len() > 0 {
        lemma_escaped_bytes_are_plain(bytes.drop_last());
        let head = escaped_bytes(bytes.drop_last());
        let tail = escaped_byte(bytes.last());
        assert forall|i: int| 0 <= i < tail.len() implies is_escaped_char(#[trigger] tail[i]) by {}
        assert forall|i: int| 0 <= i < (head + tail).len() implies is_escaped_char(
            #[trigger] (head + tail)[i],
        ) by {
            if i >= head.len() {
                assert((head + tail)[i] == tail[i - head.len()]);
            }
        }
    }
}

/// An escaped text holds letters, digits and percent signs only: no colon,
/// question mark, ampersand or equals sign of the text can be taken for one
/// of the address around it.
pub proof fn escaped_text_is_plain(text: Seq<char>)
    ensures
        forall|i: int|
            0 <= i < percent_encoded(text).len() ==> is_escaped_char(
                #[trigger] percent_encoded(text)[i],
            ),
{
    lemma_escaped_bytes_are_plain(vstd::utf8::encode_utf8(text));
}

} // verus!
