use vstd::prelude::*;
use vstd::string::*;
use crate::error::AuthError;

verus! {

/// How many file names are tried before giving up.
pub const MAX_ATTEMPTS: u32 = 10_000;

/// The character of a decimal digit.
pub open spec fn digit_char(digit: nat) -> char {
    (0x30 + digit) as char
}

/// A number in decimal, without leading zeros.
pub open spec fn decimal(n: nat) -> Seq<char>
    decreases n,
{
    if n < 10 {
        seq![digit_char(n)]
    } else {
        decimal(n / 10).push(digit_char(n % 10))
    }
}

/// The file name of an attempt: `qrcode.svg` first, then `qrcode0.svg`,
/// `qrcode1.svg` and so on.
pub open spec fn candidate_name(attempt: nat) -> Seq<char> {
    if attempt == 0 {
        "qrcode.svg"@
    } else {
        "qrcode"@ + decimal((attempt - 1) as nat) + ".svg"@
    }
}

/// What to do once it is known whether the file of an attempt exists.
#[derive(Clone, Copy, Debug, PartialEq, Eq, Structural)]
pub enum Probe {
    /// The name is free: write the file under it.
    Write,
    /// The name is taken: ask about the name of this attempt next.
    Next(u32),
}

/// The step that follows attempt `attempt`, whose file exists if `taken`:
/// to write, to go on, or to fail because no attempt is left.
pub open spec fn probe_outcome(attempt: u32, taken: bool) -> Result<Probe, AuthError> {
    if !taken {
        Ok(Probe::Write)
    } else if attempt + 1 < MAX_ATTEMPTS {
        Ok(Probe::Next((attempt + 1) as u32))
    } else {
        Err(AuthError::FilesystemError)
    }
}

/// Appends a number in decimal to a text.
fn push_decimal(text: &mut String, n: u32)
    ensures
        final(text)@ == old(text)@ + decimal(n as nat),
    decreases n,
{
    if n >= 10 {
        push_decimal(text, n / 10);
    }
    let digit = (n % 10) as u8;
    text.push((0x30 + digit) as char);
    proof {
        let before = old(text)@;
        if n >= 10 {
            assert((before + decimal((n / 10) as nat)).push(digit_char((n % 10) as nat)) =~= before
                + decimal(n as nat));
        } else {
            assert(before.push(digit_char(n as nat)) =~= before + decimal(n as nat));
        }
    }
}

/// The file name to try at attempt `attempt`, counted from zero.
pub fn output_name(attempt: u32) -> (name: String)
    ensures
        name@ == candidate_name(attempt as nat),
{
    if attempt == 0 {
        "qrcode.svg".to_owned()
    } else {
        let mut name = "qrcode".to_owned();
        push_decimal(&mut name, attempt - 1);
        name.append(".svg");
        name
    }
}

/// Decides the step after attempt `attempt`: write where the name is free;
/// else move on to the next attempt, or fail with `FilesystemError` once
/// `MAX_ATTEMPTS` names have been found taken.
pub fn after_probe(attempt: u32, taken: bool) -> (step: Result<Probe, AuthError>)
    ensures
        step == probe_outcome(attempt, taken),
{
    if !taken {
        Ok(Probe::Write)
    } else if attempt < MAX_ATTEMPTS - 1 {
        Ok(Probe::Next(attempt + 1))
    } else {
        Err(AuthError::FilesystemError)
    }
}

/// The number that a text of decimal digits spells.
spec fn decimal_value(digits: Seq<char>) -> nat
    decreases digits.len(),
{
    if digits.len() == 0 {
        0
    } else {
        (10 * decimal_value(digits.drop_last()) + (digits.last() as int - 0x30)) as nat
    }
}

proof fn lemma_decimal_value(n: nat)
    ensures
        decimal(n).len() >= 1,
        decimal_value(decimal(n)) == n,
    decreases n,
{
    if n < 10 {
        assert(decimal(n).drop_last() =~= Seq::<char>::empty());
        assert(decimal_value(decimal(n).drop_last()) == 0);
    } else {
        lemma_decimal_value(n / 10);
        assert(decimal(n).drop_last() =~= decimal(n / 10));
    }
}

/// No two attempts share a file name, so a walk through the attempts asks
/// about each name once.
pub proof fn names_are_distinct(a: nat, b: nat)
    requires
        a != b,
    ensures
        candidate_name(a) != candidate_name(b),
{
    reveal_strlit("qrcode.svg");
    reveal_strlit("qrcode");
    reveal_strlit(".svg");
    if a > 0 {
        lemma_decimal_value((a - 1) as nat);
    }
    if b > 0 {
        lemma_decimal_value((b - 1) as nat);
    }
    if a > 0 && b > 0 {
        let x = decimal((a - 1) as nat);
        let y = decimal((b - 1) as nat);
        let name_a = candidate_name(a);
        let name_b = candidate_name(b);
        assert("qrcode"@.len() == 6 && ".svg"@.len() == 4);
        assert(name_a.len() == 10 + x.len());
        assert(name_b.len() == 10 + y.len());
        assert(name_a.subrange(6, 6 + x.len() as int) =~= x);
        assert(name_b.subrange(6, 6 + y.len() as int) =~= y);
        if name_a == name_b {
            assert(x.len() == y.len());
            assert(x == y);
        }
    } else {
        assert("qrcode"@.len() == 6 && ".svg"@.len() == 4 && "qrcode.svg"@.len() == 10);
        assert(candidate_name(a).len() != candidate_name(b).len());
    }
}

} // verus!
