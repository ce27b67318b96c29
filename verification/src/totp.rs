use vstd::prelude::*;
use crate::authenticator::{get_code, totp_digits};
use crate::error::AuthError;
use crate::secret::accepted_secret;
use crate::text::same_text;

verus! {

/// The seconds that one time counter lasts.
pub const TIME_STEP: u64 = 30;

/// The number of digits in a code.
pub const CODE_DIGITS: usize = 6;

/// A code: exactly six decimal digits.
pub open spec fn is_code(code: Seq<char>) -> bool {
    &&& code.len() == CODE_DIGITS
    &&& forall|i: int| 0 <= i < code.len() ==> '0' <= #[trigger] code[i] && code[i] <= '9'
}

/// The time counter that a UNIX time falls in.
pub open spec fn counter_of(unix_time: u64) -> u64 {
    unix_time / TIME_STEP
}

/// What `derive_code` returns for a secret and a time counter.
pub open spec fn code_at(secret: Seq<char>, counter: u64) -> Result<Seq<char>, AuthError> {
    if counter == 0 {
        Err(AuthError::ZeroCounter)
    } else if !accepted_secret(secret) {
        Err(AuthError::InvalidSecret)
    } else {
        Ok(totp_digits(secret, counter))
    }
}

/// A derived code, or its error, with the code as a sequence of characters.
pub open spec fn code_view(code: Result<String, AuthError>) -> Result<Seq<char>, AuthError> {
    match code {
        Ok(digits) => Ok(digits@),
        Err(e) => Err(e),
    }
}

/// Whether `code` is the code of `secret` at `counter`.
pub open spec fn matches_at(secret: Seq<char>, code: Seq<char>, counter: u64) -> bool {
    code_at(secret, counter) == Ok::<Seq<char>, AuthError>(code)
}

/// Whether `counter` lies at most `discrepancy` steps from `base`.
pub open spec fn in_window(counter: u64, base: u64, discrepancy: u64) -> bool {
    base - discrepancy <= counter <= base + discrepancy
}

/// Whether `code` is the code of `secret` at some counter of the window
/// around `base`.
pub open spec fn matches_in_window(
    secret: Seq<char>,
    code: Seq<char>,
    base: u64,
    discrepancy: u64,
) -> bool {
    exists|counter: u64|
        in_window(counter, base, discrepancy) && #[trigger] matches_at(secret, code, counter)
}

/// The time that a verification refers to: the reference time, or the
/// current time where the reference time is zero.
pub open spec fn reference_or_now(reference_time: u64, now: u64) -> u64 {
    if reference_time == 0 {
        now
    } else {
        reference_time
    }
}

/// The time counter that a UNIX time falls in.
pub fn time_counter(unix_time: u64) -> (counter: u64)
    ensures
        counter == counter_of(unix_time),
{
    unix_time / TIME_STEP
}

/// Derives the six-digit code of `secret` for the time counter `counter`.
///
/// Fails with `ZeroCounter` for counter zero and with `InvalidSecret` for a
/// secret that is not 16 to 128 Base32 characters.
pub fn derive_code(secret: &str, counter: u64) -> (code: Result<String, AuthError>)
    ensures
        code_view(code) == code_at(secret@, counter),
        code matches Ok(digits) ==> is_code(digits@),
{
    if counter == 0 {
        return Err(AuthError::ZeroCounter);
    }
    match get_code(secret, counter) {
        Ok(digits) => Ok(digits),
        Err(_) => Err(AuthError::InvalidSecret),
    }
}

/// Whether a derived code is the candidate: never, where the derivation
/// failed.
pub fn is_match(derived: &Result<String, AuthError>, candidate: &str) -> (same: bool)
    ensures
        same == (code_view(*derived) == Ok::<Seq<char>, AuthError>(candidate@)),
{
    match derived {
        Ok(digits) => same_text(digits.as_str(), candidate),
        Err(_) => false,
    }
}

/// Checks `code` against the codes of `secret` at every time counter within
/// `discrepancy` steps of the reference time, which is `reference_time`, or
/// `now` where `reference_time` is zero. Both are UNIX times in seconds.
///
/// A secret from which no code can be derived matches nothing.
pub fn verify_code(
    secret: &str,
    code: &str,
    discrepancy: u64,
    reference_time: u64,
    now: u64,
) -> (valid: bool)
    ensures
        valid == matches_in_window(
            secret@,
            code@,
            counter_of(reference_or_now(reference_time, now)),
            discrepancy,
        ),
{
    let time = if reference_time == 0 {
        now
    } else {
        reference_time
    };
    let base = time_counter(time);
    let first: u64 = if discrepancy >= base {
        1
    } else {
        base - discrepancy
    };
    let last: u64 = if discrepancy > u64::MAX - base {
        u64::MAX
    } else {
        base + discrepancy
    };
    if first > last {
        assert forall|c: u64| in_window(c, base, discrepancy) implies !matches_at(
            secret@,
            code@,
            c,
        ) by {
            assert(c == 0);
        }
        return false;
    }
    let mut counter = first;
    loop
        invariant
            base == counter_of(reference_or_now(reference_time, now)),
            1 <= first <= counter <= last,
            base - discrepancy <= first,
            first == 1 || first == base - discrepancy,
            last <= base + discrepancy,
            last == u64::MAX || last == base + discrepancy,
            forall|c: u64| first <= c < counter ==> !matches_at(secret@, code@, c),
        decreases last - counter,
    {
        let derived = derive_code(secret, counter);
        if is_match(&derived, code) {
            assert(matches_at(secret@, code@, counter));
            assert(in_window(counter, base, discrepancy));
            return true;
        }
        if derived.is_err() {
            // the secret is one that no code is derived from, at any counter
            assert forall|c: u64| in_window(c, base, discrepancy) implies !matches_at(
                secret@,
                code@,
                c,
            ) by {}
            return false;
        }
        if counter == last {
            assert forall|c: u64| in_window(c, base, discrepancy) implies !matches_at(
                secret@,
                code@,
                c,
            ) by {
                if c != 0 {
                    assert(first <= c <= last);
                }
            }
            return false;
        }
        counter = counter + 1;
    }
}

/// Derivation is a function of the secret and the counter: from the same
/// two, the same code or the same error, each time.
pub proof fn derivation_is_deterministic(
    secret: Seq<char>,
    counter: u64,
    other_secret: Seq<char>,
    other_counter: u64,
)
    requires
        secret == other_secret,
        counter == other_counter,
    ensures
        code_at(secret, counter) == code_at(other_secret, other_counter),
{
}

/// Time counters never run backwards: a later time falls in the same
/// counter or in a later one.
pub proof fn counter_is_monotonic(earlier: u64, later: u64)
    requires
        earlier <= later,
    ensures
        counter_of(earlier) <= counter_of(later),
{
}

/// A code that is the secret's code at some counter within `discrepancy`
/// steps of `base` is accepted.
pub proof fn window_accepts(
    secret: Seq<char>,
    code: Seq<char>,
    base: u64,
    discrepancy: u64,
    counter: u64,
)
    requires
        in_window(counter, base, discrepancy),
        matches_at(secret, code, counter),
    ensures
        matches_in_window(secret, code, base, discrepancy),
{
}

/// A code that is the secret's code at no counter of the window is refused,
/// whatever it may match outside the window.
pub proof fn window_rejects(secret: Seq<char>, code: Seq<char>, base: u64, discrepancy: u64)
    requires
        forall|counter: u64|
            in_window(counter, base, discrepancy) ==> !#[trigger] matches_at(secret, code, counter),
    ensures
        !matches_in_window(secret, code, base, discrepancy),
{
}

/// The code derived for the counter of the reference time is accepted,
/// whatever the discrepancy.
pub proof fn derived_code_verifies(
    secret: Seq<char>,
    code: Seq<char>,
    base: u64,
    discrepancy: u64,
)
    requires
        matches_at(secret, code, base),
    ensures
        matches_in_window(secret, code, base, discrepancy),
{
    assert(in_window(base, base, discrepancy));
}

/// With no discrepancy, verification is one exact comparison, with the code
/// of the reference time's own counter.
pub proof fn zero_discrepancy_is_exact(secret: Seq<char>, code: Seq<char>, base: u64)
    ensures
        matches_in_window(secret, code, base, 0) <==> matches_at(secret, code, base),
{
    if matches_at(secret, code, base) {
        assert(in_window(base, base, 0));
    }
}

/// A wider window accepts whatever a narrower one accepts.
pub proof fn wider_window_accepts_more(
    secret: Seq<char>,
    code: Seq<char>,
    base: u64,
    narrow: u64,
    wide: u64,
)
    requires
        narrow <= wide,
        matches_in_window(secret, code, base, narrow),
    ensures
        matches_in_window(secret, code, base, wide),
{
    let counter = choose|counter: u64|
        in_window(counter, base, narrow) && #[trigger] matches_at(secret, code, counter);
    assert(in_window(counter, base, wide));
}

} // verus!
