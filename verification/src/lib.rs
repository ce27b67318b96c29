//! One-time passwords for Google Authenticator: secrets, time-based codes,
//! windowed verification and the provisioning QR code.
//!
//! The cryptography and the QR rendering are the `google_authenticator`
//! crate's. Every call into it stands in the module `authenticator`, behind a
//! function whose contract is believed and not proved. Two functions of the
//! standard library are taken on trust as well: `str::to_lowercase`, in
//! `level`, and `String::push`, in `text`. Everything else in this crate is
//! verified against those contracts.

pub mod authenticator;
pub mod base32;
pub mod error;
pub mod level;
pub mod output;
pub mod qr;
pub mod report;
pub mod secret;
pub mod text;
pub mod totp;
pub mod uri;
