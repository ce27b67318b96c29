use gauth_generator::uri::{build_uri, percent_encode};
use percent_encoding::{utf8_percent_encode, NON_ALPHANUMERIC};

#[test]
fn letters_and_digits_stay() {
    assert_eq!(percent_encode(""), "");
    assert_eq!(percent_encode("abcXYZ019"), "abcXYZ019");
    assert_eq!(
        percent_encode("ABCDEFGHIJKLMNOPQRSTUVWXYZabcdefghijklmnopqrstuvwxyz0123456789"),
        "ABCDEFGHIJKLMNOPQRSTUVWXYZabcdefghijklmnopqrstuvwxyz0123456789"
    );
}

#[test]
fn other_bytes_are_escaped() {
    assert_eq!(percent_encode(" "), "%20");
    assert_eq!(percent_encode("a b"), "a%20b");
    assert_eq!(percent_encode(":"), "%3A");
    assert_eq!(percent_encode("@"), "%40");
    assert_eq!(percent_encode("/"), "%2F");
    assert_eq!(percent_encode("`"), "%60");
    assert_eq!(percent_encode("["), "%5B");
    assert_eq!(percent_encode("{"), "%7B");
    assert_eq!(percent_encode("-._~"), "%2D%2E%5F%7E");
    assert_eq!(percent_encode("%"), "%25");
    assert_eq!(percent_encode("\u{0}\n\u{7f}"), "%00%0A%7F");
}

#[test]
fn text_is_escaped_byte_by_byte() {
    assert_eq!(percent_encode("\u{e9}"), "%C3%A9");
    assert_eq!(percent_encode("\u{20ac}"), "%E2%82%AC");
    assert_eq!(percent_encode("\u{1f600}"), "%F0%9F%98%80");
    assert_eq!(percent_encode("caf\u{e9} 1"), "caf%C3%A9%201");
}

#[test]
fn escaping_agrees_with_the_percent_encoding_crate() {
    let mut all = String::new();
    for code in 0..0x3000u32 {
        if let Some(c) = char::from_u32(code) {
            all.push(c);
            let one = c.to_string();
            assert_eq!(percent_encode(&one), utf8_percent_encode(&one, NON_ALPHANUMERIC).to_string());
        }
    }
    assert_eq!(percent_encode(&all), utf8_percent_encode(&all, NON_ALPHANUMERIC).to_string());
}

#[test]
fn address_of_a_plain_account() {
    assert_eq!(
        build_uri("GEZDGNBVGY3TQOJQ", "cli", "gauth"),
        "otpauth://totp/gauth:cli?secret=GEZDGNBVGY3TQOJQ&issuer=gauth"
    );
}

#[test]
fn address_escapes_issuer_and_account() {
    assert_eq!(
        build_uri("GEZDGNBVGY3TQOJQ", "alice@example.com", "Example Co"),
        "otpauth://totp/Example%20Co:alice%40example%2Ecom?secret=GEZDGNBVGY3TQOJQ&issuer=Example%20Co"
    );
    assert_eq!(
        build_uri("S", "a:b", "x&y=z"),
        "otpauth://totp/x%26y%3Dz:a%3Ab?secret=S&issuer=x%26y%3Dz"
    );
}

#[test]
fn address_keeps_the_secret_as_it_is() {
    assert_eq!(build_uri("", "", ""), "otpauth://totp/:?secret=&issuer=");
    assert_eq!(build_uri("a b", "", ""), "otpauth://totp/:?secret=a b&issuer=");
}
