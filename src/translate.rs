//! The translation of a failure into the reply that a client receives.

use vstd::prelude::*;
use crate::failure::{Error, Failure, TransportFailure};
use crate::status::{
    is_reply_code, status_line, status_line_of, BAD_REQUEST, FORBIDDEN, INTERNAL_SERVER_ERROR,
    NOT_FOUND, UNAUTHORIZED,
};

verus! {

/// The status code and client-facing message of an error reply.
pub struct ResponseDescriptor {
    pub status: u16,
    pub message: String,
}

/// The body of an error reply: the message and the textual form of the status.
pub struct ErrorResponse {
    pub message: String,
    pub status: String,
}

/// The message shown for every failure whose cause must stay on the server.
pub open spec fn internal_error_text() -> Seq<char> {
    "Internal Server Error"@
}

/// The message shown when no route matched.
pub open spec fn not_found_text() -> Seq<char> {
    "Not Found"@
}

/// The status code of the reply to a failure.
pub open spec fn reply_status(f: Failure) -> u16 {
    match f {
        Failure::Domain(e) => match e {
            Error::WrongCredentialsError => FORBIDDEN,
            Error::JWTTokenError => UNAUTHORIZED,
            Error::JWTTokenCreationError => INTERNAL_SERVER_ERROR,
            Error::WrongParkingError => BAD_REQUEST,
            Error::LoginInUseError => BAD_REQUEST,
            Error::NoPermissionError => UNAUTHORIZED,
            _ => BAD_REQUEST,
        },
        Failure::Transport(t) => match t {
            TransportFailure::RouteNotFound => NOT_FOUND,
            _ => INTERNAL_SERVER_ERROR,
        },
    }
}

/// The message of the reply to a failure.
pub open spec fn reply_message(f: Failure) -> Seq<char> {
    match f {
        Failure::Domain(e) => match e {
            Error::JWTTokenCreationError => internal_error_text(),
            _ => e.spec_message(),
        },
        Failure::Transport(t) => match t {
            TransportFailure::RouteNotFound => not_found_text(),
            _ => internal_error_text(),
        },
    }
}

/// What the server writes to its own diagnostics for a failure, if anything.
pub open spec fn diagnostic_of(f: Failure) -> Option<Seq<char>> {
    match f {
        Failure::Transport(TransportFailure::Unclassified(detail)) => Some(detail@),
        _ => None,
    }
}

/// A message that may be shown to a client: one of the fixed texts.
pub open spec fn is_client_safe(m: Seq<char>) -> bool {
    ||| m == internal_error_text()
    ||| m == not_found_text()
    ||| exists|e: Error| m == e.spec_message()
}

impl ResponseDescriptor {
    /// The status is one that an error reply can carry.
    pub open spec fn wf(&self) -> bool {
        is_reply_code(self.status)
    }

    /// Builds the body of the reply: the message, and the status as text.
    pub fn body(&self) -> (r: ErrorResponse)
        requires
            self.wf(),
        ensures
            r.message@ == self.message@,
            r.status@ == status_line_of(self.status),
    {
        ErrorResponse { message: self.message.clone(), status: status_line(self.status) }
    }
}

/// Translates a failure into the status code and message of its reply.
///
/// Every failure has a reply. Recognised domain errors show their own message,
/// but a failure to create a token shows only the generic internal error text.
/// A domain error without a rule of its own is a bad request. Anything the
/// framework could not classify is an internal error, and its detail is never
/// part of the reply.
pub fn translate(f: &Failure) -> (r: ResponseDescriptor)
    ensures
        r.status == reply_status(*f),
        r.message@ == reply_message(*f),
        r.wf(),
{
    match f {
        Failure::Domain(e) => match e {
            Error::WrongCredentialsError => ResponseDescriptor { status: FORBIDDEN, message: e.message() },
            Error::JWTTokenError => ResponseDescriptor { status: UNAUTHORIZED, message: e.message() },
            Error::JWTTokenCreationError => ResponseDescriptor {
                status: INTERNAL_SERVER_ERROR,
                message: String::from_str("Internal Server Error"),
            },
            Error::WrongParkingError => ResponseDescriptor { status: BAD_REQUEST, message: e.message() },
            Error::LoginInUseError => ResponseDescriptor { status: BAD_REQUEST, message: e.message() },
            Error::NoPermissionError => ResponseDescriptor { status: UNAUTHORIZED, message: e.message() },
            _ => ResponseDescriptor { status: BAD_REQUEST, message: e.message() },
        },
        Failure::Transport(t) => match t {
            TransportFailure::RouteNotFound => ResponseDescriptor {
                status: NOT_FOUND,
                message: String::from_str("Not Found"),
            },
            TransportFailure::MethodNotAllowed => ResponseDescriptor {
                status: INTERNAL_SERVER_ERROR,
                message: String::from_str("Internal Server Error"),
            },
            TransportFailure::Unclassified(_) => ResponseDescriptor {
                status: INTERNAL_SERVER_ERROR,
                message: String::from_str("Internal Server Error"),
            },
        },
    }
}

/// Returns the detail that the server should log for a failure: the detail of
/// an unclassified failure, and nothing for any other.
pub fn diagnostic(f: &Failure) -> (r: Option<String>)
    ensures
        r.is_some() == diagnostic_of(*f).is_some(),
        r.is_some() ==> r.unwrap()@ == diagnostic_of(*f).unwrap(),
{
    match f {
        Failure::Transport(TransportFailure::Unclassified(detail)) => Some(detail.clone()),
        _ => None,
    }
}

} // verus!
