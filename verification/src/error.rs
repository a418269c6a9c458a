//! Errors of the Event Hubs client logic.
use vstd::prelude::*;

verus! {

/// The kinds of error that the client logic reports.
#[derive(Debug, Clone, Copy, PartialEq, Eq, Structural)]
pub enum ErrorKind {
    /// A management response lacks a property, or holds one of the wrong type.
    InvalidManagementResponse,
    /// An operation needs a connection that has not been opened.
    MissingConnection,
    /// An authentication token could not be stored for a path.
    UnableToAddAuthenticationToken,
}

impl ErrorKind {
    /// The message that describes this kind of error.
    pub fn message(&self) -> (r: &'static str)
        ensures
            r@ == error_message(*self),
    {
        match self {
            ErrorKind::InvalidManagementResponse => "Invalid management response",
            ErrorKind::MissingConnection => "Connection is not yet open",
            ErrorKind::UnableToAddAuthenticationToken => "Unable to add authentication token",
        }
    }
}

/// The message of each kind of error.
pub open spec fn error_message(kind: ErrorKind) -> Seq<char> {
    match kind {
        ErrorKind::InvalidManagementResponse => "Invalid management response"@,
        ErrorKind::MissingConnection => "Connection is not yet open"@,
        ErrorKind::UnableToAddAuthenticationToken => "Unable to add authentication token"@,
    }
}

/// An error of the client logic: its kind and the message that describes it.
#[derive(Debug, Clone, Copy)]
pub struct EventHubsError {
    kind: ErrorKind,
    message: &'static str,
}

impl EventHubsError {
    /// Every error carries the message of its kind.
    #[verifier::type_invariant]
    closed spec fn message_fits_kind(self) -> bool {
        self.message@ == error_message(self.kind)
    }

    /// An error of the kind `kind`, with that kind's message.
    pub fn new(kind: ErrorKind) -> (r: EventHubsError)
        ensures
            r.kind_of() == kind,
            r.message_of()@ == error_message(kind),
    {
        EventHubsError { kind, message: kind.message() }
    }

    /// The message of the error.
    pub closed spec fn message_of(&self) -> &'static str {
        self.message
    }

    /// The kind of the error.
    pub closed spec fn kind_of(&self) -> ErrorKind {
        self.kind
    }

    /// The kind of the error.
    pub fn kind(&self) -> (r: ErrorKind)
        ensures
            r == self.kind_of(),
    {
        self.kind
    }

    /// The message that describes the error: that of its kind.
    pub fn message(&self) -> (r: &'static str)
        ensures
            r == self.message_of(),
            r@ == error_message(self.kind_of()),
    {
        proof {
            use_type_invariant(self);
        }
        self.message
    }
}

} // verus!
