use vstd::prelude::*;

verus! {

/// The line printed for the result of a validation.
pub open spec fn verdict_text(valid: bool) -> Seq<char> {
    if valid {
        "OK"@
    } else {
        "Invalid!"@
    }
}

/// The exit status for the result of a validation: 0 for a valid code, 1
/// for an invalid one.
pub open spec fn verdict_status(valid: bool) -> i32 {
    if valid {
        0
    } else {
        1
    }
}

/// The line to print for the result of a validation.
pub fn validation_message(valid: bool) -> (line: &'static str)
    ensures
        line@ == verdict_text(valid),
{
    if valid {
        "OK"
    } else {
        "Invalid!"
    }
}

/// The status to exit with for the result of a validation.
pub fn exit_status(valid: bool) -> (status: i32)
    ensures
        status == verdict_status(valid),
{
    if valid {
        0
    } else {
        1
    }
}

} // verus!
