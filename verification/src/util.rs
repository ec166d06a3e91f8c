//! The application's error: a kind and a message.

use vstd::prelude::*;
use vstd::std_specs::convert::FromSpecImpl;
use vstd::string::StringExecFns;

verus! {

/// `std::io::Error`, carried through as it is: nothing inside it is read.
#[verifier::external_type_specification]
#[verifier::external_body]
pub struct ExIoError(std::io::Error);

/// `std::str::Utf8Error`, carried through as it is: nothing inside it is
/// read.
#[verifier::external_type_specification]
#[verifier::external_body]
pub struct ExUtf8Error(std::str::Utf8Error);

/// An error of the application: what kind of failure it was, and the
/// failure's own description.
#[derive(Debug)]
pub struct AppError {
    kind: String,
    message: String,
}

impl AppError {
    /// The kind of an input or output failure.
    pub open spec fn io_kind() -> Seq<char> {
        "io"@
    }

    /// The kind of a failure to decode text.
    pub open spec fn utf8_kind() -> Seq<char> {
        "UTF-8"@
    }

    /// The kind of this error.
    pub closed spec fn kind_text(&self) -> Seq<char> {
        self.kind@
    }

    /// The description of this error.
    pub closed spec fn message_text(&self) -> Seq<char> {
        self.message@
    }

    /// An input or output failure with the description `message`.
    pub fn io(message: String) -> (r: AppError)
        ensures
            r.kind_text() == AppError::io_kind(),
            r.message_text() == message@,
    {
        AppError { kind: String::from_str("io"), message }
    }

    /// A failure to decode text, with the description `message`.
    pub fn utf8(message: String) -> (r: AppError)
        ensures
            r.kind_text() == AppError::utf8_kind(),
            r.message_text() == message@,
    {
        AppError { kind: String::from_str("UTF-8"), message }
    }

    /// The kind of this error.
    pub fn kind(&self) -> (r: &str)
        ensures
            r@ == self.kind_text(),
    {
        self.kind.as_str()
    }

    /// The description of this error.
    pub fn message(&self) -> (r: &str)
        ensures
            r@ == self.message_text(),
    {
        self.message.as_str()
    }
}

impl From<std::io::Error> for AppError {
    /// An input or output failure, with the failure's own description.
    fn from(error: std::io::Error) -> (r: AppError)
        ensures
            r.kind_text() == AppError::io_kind(),
    {
        let message = error.to_string();
        AppError::io(message)
    }
}

impl FromSpecImpl<std::io::Error> for AppError {
    open spec fn obeys_from_spec() -> bool {
        false
    }

    open spec fn from_spec(v: std::io::Error) -> AppError {
        arbitrary()
    }
}

impl From<std::str::Utf8Error> for AppError {
    /// A failure to decode text, with the failure's own description.
    fn from(error: std::str::Utf8Error) -> (r: AppError)
        ensures
            r.kind_text() == AppError::utf8_kind(),
    {
        let message = error.to_string();
        AppError::utf8(message)
    }
}

impl FromSpecImpl<std::str::Utf8Error> for AppError {
    open spec fn obeys_from_spec() -> bool {
        false
    }

    open spec fn from_spec(v: std::str::Utf8Error) -> AppError {
        arbitrary()
    }
}

} // verus!
