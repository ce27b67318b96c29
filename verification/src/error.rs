use vstd::prelude::*;

verus! {

/// Why an operation of this crate failed.
#[derive(Clone, Copy, Debug, PartialEq, Eq, Structural)]
pub enum AuthError {
    /// The secret is not Base32 text of a length that the authenticator takes.
    InvalidSecret,
    /// A code was asked for time counter zero, which the authenticator
    /// cannot be asked for: to it, zero stands for the current time.
    ZeroCounter,
    /// The token names no error-correction level.
    InvalidErrorCorrectionLevel,
    /// No output file could be chosen or written.
    FilesystemError,
    /// The QR renderer turned the request down.
    RenderError,
}

impl AuthError {
    /// The message shown to the user for this error.
    pub fn message(&self) -> (text: &'static str)
        ensures
            text@ == self.message_spec(),
    {
        match self {
            AuthError::InvalidSecret => "Invalid secret: expected 16 to 128 Base32 characters.",
            AuthError::ZeroCounter => "Time counter zero is not supported.",
            AuthError::InvalidErrorCorrectionLevel =>
                "Invalid error correction level. Choose one from [low, medium, quartile, high].",
            AuthError::FilesystemError => "No free output file name was found.",
            AuthError::RenderError => "The QR code could not be rendered.",
        }
    }

    /// The text of `message`.
    pub open spec fn message_spec(&self) -> Seq<char> {
        match self {
            AuthError::InvalidSecret => "Invalid secret: expected 16 to 128 Base32 characters."@,
            AuthError::ZeroCounter => "Time counter zero is not supported."@,
            AuthError::InvalidErrorCorrectionLevel =>
                "Invalid error correction level. Choose one from [low, medium, quartile, high]."@,
            AuthError::FilesystemError => "No free output file name was found."@,
            AuthError::RenderError => "The QR code could not be rendered."@,
        }
    }
}

} // verus!
