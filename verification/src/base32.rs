//! Base32 as RFC 4648 defines it, without padding: text and bytes as two
//! groupings of one string of bits, five to a symbol and eight to a byte.

use vstd::prelude::*;

verus! {

/// One of the 32 symbols of the alphabet: `A`-`Z` and `2`-`7`.
pub open spec fn is_base32_symbol(c: char) -> bool {
    ('A' <= c && c <= 'Z') || ('2' <= c && c <= '7')
}

/// The value of a symbol: 0 to 25 for `A`-`Z`, 26 to 31 for `2`-`7`.
pub open spec fn symbol_value(c: char) -> nat {
    if 'A' <= c && c <= 'Z' {
        (c as int - 0x41) as nat
    } else {
        (c as int - 0x18) as nat
    }
}

/// The symbol of a value below 32.
pub open spec fn symbol_of(value: nat) -> char {
    if value < 26 {
        (0x41 + value) as char
    } else {
        (0x18 + value) as char
    }
}

/// How many symbols it takes to hold `bytes` bytes.
pub open spec fn symbol_count(bytes: nat) -> nat {
    (8 * bytes + 4) / 5
}

/// How many whole bytes `symbols` symbols hold.
pub open spec fn byte_count(symbols: nat) -> nat {
    5 * symbols / 8
}

/// Two to the power `exponent`.
pub open spec fn two_to(exponent: nat) -> nat
    decreases exponent,
{
    if exponent == 0 {
        1
    } else {
        2 * two_to((exponent - 1) as nat)
    }
}

/// Whether the bit of weight `two_to(position)` is set in `value`.
pub open spec fn bit_of(value: nat, position: nat) -> bool {
    (value / two_to(position)) % 2 == 1
}

/// The bit at `index` as a number; past the end the bits are zero.
pub open spec fn bit_at(bits: Seq<bool>, index: int) -> nat {
    if 0 <= index < bits.len() && bits[index] {
        1
    } else {
        0
    }
}

/// The number that the five bits from `at` on spell, the first bit
/// weighing most.
pub open spec fn value_at(bits: Seq<bool>, at: int) -> nat {
    16 * bit_at(bits, at) + 8 * bit_at(bits, at + 1) + 4 * bit_at(bits, at + 2) + 2 * bit_at(
        bits,
        at + 3,
    ) + bit_at(bits, at + 4)
}

/// The number that the eight bits from `at` on spell, the first bit
/// weighing most.
pub open spec fn byte_at(bits: Seq<bool>, at: int) -> nat {
    128 * bit_at(bits, at) + 64 * bit_at(bits, at + 1) + 32 * bit_at(bits, at + 2) + 16 * bit_at(
        bits,
        at + 3,
    ) + 8 * bit_at(bits, at + 4) + 4 * bit_at(bits, at + 5) + 2 * bit_at(bits, at + 6) + bit_at(
        bits,
        at + 7,
    )
}

/// The bits of a text, five to a symbol.
pub open spec fn symbol_bits(symbols: Seq<char>) -> Seq<bool> {
    Seq::new(
        5 * symbols.len(),
        |j: int| bit_of(symbol_value(symbols[j / 5]), (4 - j % 5) as nat),
    )
}

/// The bits of a byte sequence, eight to a byte.
pub open spec fn byte_bits(bytes: Seq<u8>) -> Seq<bool> {
    Seq::new(8 * bytes.len(), |j: int| bit_of(bytes[j / 8] as nat, (7 - j % 8) as nat))
}

/// The bytes that a text decodes to: its bits in groups of eight, less the
/// bits left over.
pub open spec fn decoded(symbols: Seq<char>) -> Seq<u8> {
    Seq::new(byte_count(symbols.len()), |k: int| byte_at(symbol_bits(symbols), 8 * k) as u8)
}

/// The text that encodes a byte sequence: its bits in groups of five, the
/// last group filled up with zeros.
pub open spec fn encoded(bytes: Seq<u8>) -> Seq<char> {
    Seq::new(symbol_count(bytes.len()), |i: int| symbol_of(value_at(byte_bits(bytes), 5 * i)))
}

/// A text that encodes `bytes` bytes: the symbols that so many bytes take,
/// with the bits left over in the last symbol all zero.
pub open spec fn is_encoding_of_length(symbols: Seq<char>, bytes: nat) -> bool {
    &&& symbols.len() == symbol_count(bytes)
    &&& forall|i: int| 0 <= i < symbols.len() ==> is_base32_symbol(#[trigger] symbols[i])
    &&& forall|j: int| 8 * bytes <= j < 5 * symbols.len() ==> !#[trigger] symbol_bits(symbols)[j]
}

proof fn lemma_powers_of_two()
    ensures
        two_to(0) == 1,
        two_to(1) == 2,
        two_to(2) == 4,
        two_to(3) == 8,
        two_to(4) == 16,
        two_to(5) == 32,
        two_to(6) == 64,
        two_to(7) == 128,
{
    assert(two_to(0) == 1);
    assert(two_to(1) == 2);
    assert(two_to(2) == 4);
    assert(two_to(3) == 8);
    assert(two_to(4) == 16);
    assert(two_to(5) == 32);
    assert(two_to(6) == 64);
    assert(two_to(7) == 128);
}

proof fn lemma_symbol_of_value(c: char)
    requires
        is_base32_symbol(c),
    ensures
        symbol_value(c) < 32,
        symbol_of(symbol_value(c)) == c,
{
}

proof fn lemma_value_of_symbol(value: nat)
    requires
        value < 32,
    ensures
        is_base32_symbol(symbol_of(value)),
        symbol_value(symbol_of(value)) == value,
{
}

proof fn lemma_five_bits(value: nat)
    requires
        value < 32,
    ensures
        value == 16 * (if bit_of(value, 4) { 1nat } else { 0 }) + 8 * (if bit_of(value, 3) { 1nat } else { 0 })
            + 4 * (if bit_of(value, 2) { 1nat } else { 0 }) + 2 * (if bit_of(value, 1) { 1nat } else { 0 })
            + (if bit_of(value, 0) { 1nat } else { 0 }),
{
    lemma_powers_of_two();
}

proof fn lemma_eight_bits(value: nat)
    requires
        value < 256,
    ensures
        value == 128 * (if bit_of(value, 7) { 1nat } else { 0 }) + 64 * (if bit_of(value, 6) { 1nat } else { 0 })
            + 32 * (if bit_of(value, 5) { 1nat } else { 0 }) + 16 * (if bit_of(value, 4) { 1nat } else { 0 })
            + 8 * (if bit_of(value, 3) { 1nat } else { 0 }) + 4 * (if bit_of(value, 2) { 1nat } else { 0 })
            + 2 * (if bit_of(value, 1) { 1nat } else { 0 }) + (if bit_of(value, 0) { 1nat } else { 0 }),
{
    lemma_powers_of_two();
    let low = value % 16;
    let high = value / 16;
    assert(value == 16 * high + low);
    assert(high < 16 && low < 16);
    assert(value / 128 == high / 8);
    assert(value / 64 == high / 4);
    assert(value / 32 == high / 2);
    assert((value / 8) % 2 == (low / 8) % 2);
    assert((value / 4) % 2 == (low / 4) % 2);
    assert((value / 2) % 2 == (low / 2) % 2);
    assert(value % 2 == low % 2);
    assert(high == 8 * ((high / 8) % 2) + 4 * ((high / 4) % 2) + 2 * ((high / 2) % 2) + high % 2);
    assert(low == 8 * ((low / 8) % 2) + 4 * ((low / 4) % 2) + 2 * ((low / 2) % 2) + low % 2);
}

proof fn lemma_bits_of_five(b4: nat, b3: nat, b2: nat, b1: nat, b0: nat)
    requires
        b4 <= 1,
        b3 <= 1,
        b2 <= 1,
        b1 <= 1,
        b0 <= 1,
    ensures
        16 * b4 + 8 * b3 + 4 * b2 + 2 * b1 + b0 < 32,
        bit_of(16 * b4 + 8 * b3 + 4 * b2 + 2 * b1 + b0, 4) == (b4 == 1),
        bit_of(16 * b4 + 8 * b3 + 4 * b2 + 2 * b1 + b0, 3) == (b3 == 1),
        bit_of(16 * b4 + 8 * b3 + 4 * b2 + 2 * b1 + b0, 2) == (b2 == 1),
        bit_of(16 * b4 + 8 * b3 + 4 * b2 + 2 * b1 + b0, 1) == (b1 == 1),
        bit_of(16 * b4 + 8 * b3 + 4 * b2 + 2 * b1 + b0, 0) == (b0 == 1),
{
    lemma_powers_of_two();
}

proof fn lemma_bits_of_eight(
    b7: nat,
    b6: nat,
    b5: nat,
    b4: nat,
    b3: nat,
    b2: nat,
    b1: nat,
    b0: nat,
)
    requires
        b7 <= 1,
        b6 <= 1,
        b5 <= 1,
        b4 <= 1,
        b3 <= 1,
        b2 <= 1,
        b1 <= 1,
        b0 <= 1,
    ensures
        128 * b7 + 64 * b6 + 32 * b5 + 16 * b4 + 8 * b3 + 4 * b2 + 2 * b1 + b0 < 256,
        bit_of(128 * b7 + 64 * b6 + 32 * b5 + 16 * b4 + 8 * b3 + 4 * b2 + 2 * b1 + b0, 7) == (b7
            == 1),
        bit_of(128 * b7 + 64 * b6 + 32 * b5 + 16 * b4 + 8 * b3 + 4 * b2 + 2 * b1 + b0, 6) == (b6
            == 1),
        bit_of(128 * b7 + 64 * b6 + 32 * b5 + 16 * b4 + 8 * b3 + 4 * b2 + 2 * b1 + b0, 5) == (b5
            == 1),
        bit_of(128 * b7 + 64 * b6 + 32 * b5 + 16 * b4 + 8 * b3 + 4 * b2 + 2 * b1 + b0, 4) == (b4
            == 1),
        bit_of(128 * b7 + 64 * b6 + 32 * b5 + 16 * b4 + 8 * b3 + 4 * b2 + 2 * b1 + b0, 3) == (b3
            == 1),
        bit_of(128 * b7 + 64 * b6 + 32 * b5 + 16 * b4 + 8 * b3 + 4 * b2 + 2 * b1 + b0, 2) == (b2
            == 1),
        bit_of(128 * b7 + 64 * b6 + 32 * b5 + 16 * b4 + 8 * b3 + 4 * b2 + 2 * b1 + b0, 1) == (b1
            == 1),
        bit_of(128 * b7 + 64 * b6 + 32 * b5 + 16 * b4 + 8 * b3 + 4 * b2 + 2 * b1 + b0, 0) == (b0
            == 1),
{
    lemma_powers_of_two();
}

proof fn lemma_value_at(bits: Seq<bool>, at: int)
    ensures
        value_at(bits, at) < 32,
        forall|t: int|
            0 <= t < 5 ==> #[trigger] bit_of(value_at(bits, at), (4 - t) as nat) == (bit_at(
                bits,
                at + t,
            ) == 1),
{
    lemma_bits_of_five(
        bit_at(bits, at),
        bit_at(bits, at + 1),
        bit_at(bits, at + 2),
        bit_at(bits, at + 3),
        bit_at(bits, at + 4),
    );
}

proof fn lemma_byte_at(bits: Seq<bool>, at: int)
    ensures
        byte_at(bits, at) < 256,
        forall|u: int|
            0 <= u < 8 ==> #[trigger] bit_of(byte_at(bits, at), (7 - u) as nat) == (bit_at(
                bits,
                at + u,
            ) == 1),
{
    lemma_bits_of_eight(
        bit_at(bits, at),
        bit_at(bits, at + 1),
        bit_at(bits, at + 2),
        bit_at(bits, at + 3),
        bit_at(bits, at + 4),
        bit_at(bits, at + 5),
        bit_at(bits, at + 6),
        bit_at(bits, at + 7),
    );
}

/// Decoding gives back the bytes that were encoded, and a text that
/// encodes bytes holds the symbols that so many bytes take, with the bits
/// left over in the last of them zero.
pub proof fn decoding_undoes_encoding(bytes: Seq<u8>)
    ensures
        is_encoding_of_length(encoded(bytes), bytes.len()),
        decoded(encoded(bytes)) == bytes,
{
    let text = encoded(bytes);
    let source = byte_bits(bytes);
    let bits = symbol_bits(text);
    assert forall|i: int| 0 <= i < text.len() implies is_base32_symbol(#[trigger] text[i])
        && symbol_value(text[i]) == value_at(source, 5 * i) by {
        lemma_value_at(source, 5 * i);
        lemma_value_of_symbol(value_at(source, 5 * i));
    }
    assert forall|j: int| 0 <= j < bits.len() implies #[trigger] bits[j] == (bit_at(source, j)
        == 1) by {
        let i = j / 5;
        let t = j % 5;
        lemma_value_at(source, 5 * i);
        assert(symbol_value(text[i]) == value_at(source, 5 * i));
        assert(bit_of(value_at(source, 5 * i), (4 - t) as nat) == (bit_at(source, 5 * i + t)
            == 1));
    }
    assert forall|k: int| 0 <= k < bytes.len() implies #[trigger] decoded(text)[k] == bytes[k] by {
        lemma_eight_bits(bytes[k] as nat);
        assert forall|u: int| 0 <= u < 8 implies #[trigger] bit_at(bits, 8 * k + u) == (if bit_of(
            bytes[k] as nat,
            (7 - u) as nat,
        ) {
            1nat
        } else {
            0
        }) by {
            let j = 8 * k + u;
            assert(bits[j] == (bit_at(source, j) == 1));
            assert(j / 8 == k && j % 8 == u);
            assert(source[j] == bit_of(bytes[j / 8] as nat, (7 - j % 8) as nat));
        }
        assert(bit_at(bits, 8 * k + 0) == bit_at(bits, 8 * k));
        assert(byte_at(bits, 8 * k) == bytes[k] as nat);
    }
    assert(decoded(text) =~= bytes);
}

/// Encoding gives back a text that was decoded, where the text encodes
/// whole bytes; and it decodes to as many bytes as it encodes.
pub proof fn encoding_undoes_decoding(text: Seq<char>, bytes: nat)
    requires
        is_encoding_of_length(text, bytes),
    ensures
        decoded(text).len() == bytes,
        encoded(decoded(text)) == text,
{
    let data = decoded(text);
    let bits = symbol_bits(text);
    let regrouped = byte_bits(data);
    assert(data.len() == bytes);
    assert forall|j: int| 0 <= j < 5 * text.len() implies #[trigger] bit_at(regrouped, j) == bit_at(
        bits,
        j,
    ) by {
        if j < 8 * bytes {
            let k = j / 8;
            let u = j % 8;
            lemma_byte_at(bits, 8 * k);
            assert(data[k] == byte_at(bits, 8 * k) as u8);
            assert(regrouped[j] == bit_of(data[k] as nat, (7 - u) as nat));
            assert(bit_of(byte_at(bits, 8 * k), (7 - u) as nat) == (bit_at(bits, 8 * k + u) == 1));
        } else {
            assert(!bits[j]);
        }
    }
    assert forall|i: int| 0 <= i < text.len() implies #[trigger] encoded(data)[i] == text[i] by {
        lemma_symbol_of_value(text[i]);
        lemma_five_bits(symbol_value(text[i]));
        assert forall|t: int| 0 <= t < 5 implies #[trigger] bit_at(regrouped, 5 * i + t) == (
        if bit_of(symbol_value(text[i]), (4 - t) as nat) {
            1nat
        } else {
            0
        }) by {
            let j = 5 * i + t;
            assert(bit_at(regrouped, j) == bit_at(bits, j));
            assert(j / 5 == i && j % 5 == t);
            assert(bits[j] == bit_of(symbol_value(text[j / 5]), (4 - j % 5) as nat));
        }
        assert(bit_at(regrouped, 5 * i + 0) == bit_at(regrouped, 5 * i));
        assert(value_at(regrouped, 5 * i) == symbol_value(text[i]));
    }
    assert(encoded(data) =~= text);
}

proof fn lemma_low_bits_clear(value: nat, spare: nat, position: nat)
    requires
        value < 32,
        spare <= 4,
        value % two_to(spare) == 0,
        position < spare,
    ensures
        !bit_of(value, position),
{
    lemma_powers_of_two();
    assert(spare == 1 || spare == 2 || spare == 3 || spare == 4);
    assert(position == 0 || position == 1 || position == 2 || position == 3);
    if position == 1 {
        assert(value % 4 == 0);
    } else if position == 2 {
        assert(value % 8 == 0);
    } else if position == 3 {
        assert(value % 16 == 0);
    } else {
        assert(value % 2 == 0);
    }
}

/// A text of symbols whose last symbol has a value that is a multiple of
/// two to the number of bits left over encodes whole bytes.
pub proof fn encoding_by_last_symbol(text: Seq<char>, bytes: nat)
    requires
        text.len() == symbol_count(bytes),
        forall|i: int| 0 <= i < text.len() ==> is_base32_symbol(#[trigger] text[i]),
        text.len() > 0 ==> symbol_value(text.last()) % two_to((5 * text.len() - 8 * bytes) as nat)
            == 0,
    ensures
        is_encoding_of_length(text, bytes),
{
    assert forall|j: int| 8 * bytes <= j < 5 * text.len() implies !#[trigger] symbol_bits(
        text,
    )[j] by {
        let spare = (5 * text.len() - 8 * bytes) as nat;
        assert(j / 5 == text.len() - 1);
        lemma_symbol_of_value(text.last());
        lemma_low_bits_clear(symbol_value(text.last()), spare, (4 - j % 5) as nat);
    }
}

} // verus!
