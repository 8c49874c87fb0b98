//! The failures that reach the translator.

use vstd::prelude::*;

verus! {

/// The domain errors that request handlers of this service raise.
///
/// Each kind carries a fixed message, meant for clients.
#[derive(Clone, Copy, Debug, PartialEq, Eq, Structural)]
pub enum Error {
    WrongCredentialsError,
    JWTTokenError,
    JWTTokenCreationError,
    NoAuthHeaderError,
    InvalidAuthHeaderError,
    WrongParkingError,
    LoginInUseError,
    NoPermissionError,
}

impl Error {
    /// The fixed message of this kind of error.
    pub open spec fn spec_message(self) -> Seq<char> {
        match self {
            Error::WrongCredentialsError => "wrong credentials"@,
            Error::JWTTokenError => "jwt token not valid"@,
            Error::JWTTokenCreationError => "jwt token creation error"@,
            Error::NoAuthHeaderError => "no auth header"@,
            Error::InvalidAuthHeaderError => "invalid auth header"@,
            Error::WrongParkingError => "parking not found"@,
            Error::LoginInUseError => "This login is taken. Try another."@,
            Error::NoPermissionError => "no permission"@,
        }
    }

    /// Returns the fixed message of this kind of error.
    pub fn message(&self) -> (r: String)
        ensures
            r@ == self.spec_message(),
    {
        let text: &str = match self {
            Error::WrongCredentialsError => "wrong credentials",
            Error::JWTTokenError => "jwt token not valid",
            Error::JWTTokenCreationError => "jwt token creation error",
            Error::NoAuthHeaderError => "no auth header",
            Error::InvalidAuthHeaderError => "invalid auth header",
            Error::WrongParkingError => "parking not found",
            Error::LoginInUseError => "This login is taken. Try another.",
            Error::NoPermissionError => "no permission",
        };
        String::from_str(text)
    }
}

/// Failures signalled by the web framework rather than by this service.
///
/// Their text does not belong to this service: an unclassified failure carries a
/// detail meant for the server's diagnostics only.
pub enum TransportFailure {
    /// No route matched the request.
    RouteNotFound,
    /// A route matched the path, but not the method.
    MethodNotAllowed,
    /// Anything else, with a description for the server's own log.
    Unclassified(String),
}

/// Any failure that can end the handling of a request.
pub enum Failure {
    /// A domain error of this service.
    Domain(Error),
    /// A signal of the surrounding framework.
    Transport(TransportFailure),
}

} // verus!
