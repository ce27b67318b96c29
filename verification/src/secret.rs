use vstd::prelude::*;
use vstd::string::*;
use crate::authenticator::random_symbols;
use crate::base32::{
    decoded, encoded, encoding_by_last_symbol, encoding_undoes_decoding, is_base32_symbol,
    is_encoding_of_length, symbol_value, two_to,
};

verus! {

/// The length in bytes of the secret that `create_secret` makes by default.
pub const DEFAULT_SECRET_BYTES: u8 = 32;

/// A character that the authenticator's Base32 decoder has a value for: a
/// symbol in either letter case, or the padding sign.
pub open spec fn is_secret_char(c: char) -> bool {
    is_base32_symbol(c) || ('a' <= c && c <= 'z') || c == '='
}

/// A secret that codes can be derived from: 16 to 128 characters, each with a
/// Base32 value.
pub open spec fn accepted_secret(secret: Seq<char>) -> bool {
    &&& 16 <= secret.len() <= 128
    &&& forall|i: int| 0 <= i < secret.len() ==> is_secret_char(#[trigger] secret[i])
}

/// Clears the lowest `spare` bits of a symbol's value and leaves the
/// others as they are.
fn clear_low_bits(symbol: char, spare: u8) -> (cleared: char)
    requires
        is_base32_symbol(symbol),
        spare <= 4,
    ensures
        is_base32_symbol(cleared),
        symbol_value(cleared) % two_to(spare as nat) == 0,
        symbol_value(cleared) / two_to(spare as nat) == symbol_value(symbol) / two_to(spare as nat),
{
    proof {
        reveal_with_fuel(two_to, 5);
    }
    let code = symbol as u32;
    let value: u32 = if code >= 0x41 {
        code - 0x41
    } else {
        code - 0x18
    };
    let unit: u32 = if spare == 0 {
        1
    } else if spare == 1 {
        2
    } else if spare == 2 {
        4
    } else if spare == 3 {
        8
    } else {
        16
    };
    assert(unit == two_to(spare as nat));
    let kept: u32 = value - value % unit;
    if kept < 26 {
        ((0x41 + kept) as u8) as char
    } else {
        ((0x18 + kept) as u8) as char
    }
}

/// Draws `count` random symbols.
fn random_text(count: u16) -> (symbols: String)
    requires
        count <= 510,
    ensures
        symbols@.len() == count,
        forall|i: int| 0 <= i < symbols@.len() ==> is_base32_symbol(#[trigger] symbols@[i]),
{
    if count <= 255 {
        random_symbols(count as u8)
    } else {
        let mut symbols = random_symbols(255);
        let rest = random_symbols((count - 255) as u8);
        symbols.append(rest.as_str());
        symbols
    }
}

/// Makes a fresh random secret of `length` bytes and returns it as Base32
/// text without padding: the text that encodes those bytes, and that
/// decodes to them again.
///
/// A secret of 10 to 80 bytes is one that codes can be derived from.
pub fn create_secret(length: u8) -> (secret: String)
    ensures
        is_encoding_of_length(secret@, length as nat),
        decoded(secret@).len() == length,
        encoded(decoded(secret@)) == secret@,
        10 <= length <= 80 ==> accepted_secret(secret@),
{
    let count: u16 = (8 * (length as u16) + 4) / 5;
    if count == 0 {
        let secret = String::new();
        proof {
            encoding_by_last_symbol(secret@, length as nat);
            encoding_undoes_decoding(secret@, length as nat);
        }
        return secret;
    }
    let spare: u8 = (5 * count - 8 * (length as u16)) as u8;
    let mut secret = random_text(count - 1);
    let last = random_symbols(1);
    let symbol = last.as_str().get_char(0);
    secret.push(clear_low_bits(symbol, spare));
    proof {
        encoding_by_last_symbol(secret@, length as nat);
        encoding_undoes_decoding(secret@, length as nat);
    }
    secret
}

} // verus!
