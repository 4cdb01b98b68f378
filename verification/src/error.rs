//! The error type of the library.

use vstd::prelude::*;

verus! {

/// What went wrong.
#[derive(Debug, Clone, Copy, PartialEq, Eq, Structural)]
pub enum ErrorKind {
    /// No location of the configuration file could be determined.
    ConfigNotFound,
    /// The configuration file could not be read or decoded.
    ConfigParseError,
    /// No account of the requested name, or no default account.
    AccountNotFound,
    /// The command that prints the password failed.
    CredentialCommandFailed,
    /// The request could not be sent, or the answer could not be received.
    TransportError,
    /// The server answered with a status outside 2xx.
    HttpStatusError,
    /// A multistatus document could not be decoded.
    XmlDecodeError,
    /// The answer lacks a header that the operation needs.
    MissingRequiredHeader,
    /// A date in the answer could not be parsed.
    DateParseError,
    /// The operation is deliberately left without behaviour.
    NotImplemented,
}

/// An error: its kind, what the library was doing, and the cause where one
/// is known.
#[derive(Debug, Clone, PartialEq, Eq)]
pub struct Error {
    pub kind: ErrorKind,
    /// What was being attempted, for instance `cannot read card "x"`.
    pub context: String,
    /// The underlying cause, as reported by the server or the transport.
    pub reason: Option<String>,
}

/// The mathematical content of an [`Error`].
pub ghost struct ErrorView {
    pub kind: ErrorKind,
    pub context: Seq<char>,
    pub reason: Option<Seq<char>>,
}

/// The content of an optional string.
pub open spec fn opt_text(s: Option<String>) -> Option<Seq<char>> {
    match s {
        Some(t) => Some(t@),
        None => None,
    }
}

impl View for Error {
    type V = ErrorView;

    open spec fn view(&self) -> ErrorView {
        ErrorView { kind: self.kind, context: self.context@, reason: opt_text(self.reason) }
    }
}

impl Error {
    /// An error of the given kind without a known cause.
    pub fn new(kind: ErrorKind, context: String) -> (e: Error)
        ensures
            e@ == (ErrorView { kind, context: context@, reason: None }),
    {
        Error { kind, context, reason: None }
    }

    /// An error of the given kind with its cause.
    pub fn caused_by(kind: ErrorKind, context: String, reason: String) -> (e: Error)
        ensures
            e@ == (ErrorView { kind, context: context@, reason: Some(reason@) }),
    {
        Error { kind, context, reason: Some(reason) }
    }

    /// The message of the error: what was being attempted.
    pub fn to_string(&self) -> (message: String)
        ensures
            message@ == self@.context,
    {
        self.context.clone()
    }
}

} // verus!
