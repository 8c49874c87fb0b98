use rejection_reply::failure::{Error, Failure, TransportFailure};
use rejection_reply::status::{
    is_reply_status, BAD_REQUEST, FORBIDDEN, INTERNAL_SERVER_ERROR, NOT_FOUND, UNAUTHORIZED,
};
use rejection_reply::translate::{diagnostic, translate, ResponseDescriptor};

fn domain(e: Error) -> ResponseDescriptor {
    translate(&Failure::Domain(e))
}

fn transport(t: TransportFailure) -> ResponseDescriptor {
    translate(&Failure::Transport(t))
}

#[test]
fn wrong_credentials_is_forbidden() {
    let r = domain(Error::WrongCredentialsError);
    assert_eq!(r.status, 403);
    assert_eq!(r.status, FORBIDDEN);
    assert_eq!(r.message, "wrong credentials");
}

#[test]
fn invalid_token_is_unauthorized() {
    let r = domain(Error::JWTTokenError);
    assert_eq!(r.status, UNAUTHORIZED);
    assert_eq!(r.message, "jwt token not valid");
}

#[test]
fn token_creation_failure_hides_its_cause() {
    let r = domain(Error::JWTTokenCreationError);
    assert_eq!(r.status, 500);
    assert_eq!(r.message, "Internal Server Error");
    assert!(!r.message.contains("jwt"));
}

#[test]
fn missing_parking_is_bad_request() {
    let r = domain(Error::WrongParkingError);
    assert_eq!(r.status, BAD_REQUEST);
    assert_eq!(r.message, "parking not found");
}

#[test]
fn login_in_use_is_bad_request() {
    let r = domain(Error::LoginInUseError);
    assert_eq!(r.status, 400);
    assert_eq!(r.message, "This login is taken. Try another.");
}

#[test]
fn no_permission_is_unauthorized() {
    let r = domain(Error::NoPermissionError);
    assert_eq!(r.status, 401);
    assert_eq!(r.message, "no permission");
}

#[test]
fn auth_header_errors_fall_back_to_bad_request() {
    let r = domain(Error::NoAuthHeaderError);
    assert_eq!(r.status, 400);
    assert_eq!(r.message, "no auth header");
    let r = domain(Error::InvalidAuthHeaderError);
    assert_eq!(r.status, 400);
    assert_eq!(r.message, "invalid auth header");
}

#[test]
fn route_not_found_is_not_found() {
    let r = transport(TransportFailure::RouteNotFound);
    assert_eq!(r.status, 404);
    assert_eq!(r.status, NOT_FOUND);
    assert_eq!(r.message, "Not Found");
}

#[test]
fn method_not_allowed_is_internal_error() {
    let r = transport(TransportFailure::MethodNotAllowed);
    assert_eq!(r.status, 500);
    assert_eq!(r.message, "Internal Server Error");
}

#[test]
fn unclassified_failure_is_internal_error_without_detail() {
    let secret = "anything, including secrets";
    let f = Failure::Transport(TransportFailure::Unclassified(secret.to_string()));
    let r = translate(&f);
    assert_eq!(r.status, INTERNAL_SERVER_ERROR);
    assert_eq!(r.message, "Internal Server Error");
    let body = r.body();
    assert!(!body.message.contains(secret));
    assert!(!body.status.contains(secret));
    assert!(!body.message.contains("secret"));
}

#[test]
fn two_defaults_are_distinct() {
    let recognised = domain(Error::InvalidAuthHeaderError);
    let unknown = transport(TransportFailure::Unclassified("boom".to_string()));
    assert_eq!(recognised.status, 400);
    assert_eq!(unknown.status, 500);
    assert_ne!(recognised.message, unknown.message);
}

#[test]
fn body_status_is_code_and_reason() {
    assert_eq!(domain(Error::WrongParkingError).body().status, "400 Bad Request");
    assert_eq!(domain(Error::JWTTokenError).body().status, "401 Unauthorized");
    assert_eq!(domain(Error::WrongCredentialsError).body().status, "403 Forbidden");
    assert_eq!(transport(TransportFailure::RouteNotFound).body().status, "404 Not Found");
    assert_eq!(
        transport(TransportFailure::MethodNotAllowed).body().status,
        "500 Internal Server Error"
    );
}

#[test]
fn body_keeps_message() {
    let body = domain(Error::LoginInUseError).body();
    assert_eq!(body.message, "This login is taken. Try another.");
}

#[test]
fn body_status_starts_with_numeric_code() {
    let failures = vec![
        Failure::Domain(Error::WrongCredentialsError),
        Failure::Domain(Error::JWTTokenError),
        Failure::Domain(Error::JWTTokenCreationError),
        Failure::Domain(Error::NoAuthHeaderError),
        Failure::Domain(Error::InvalidAuthHeaderError),
        Failure::Domain(Error::WrongParkingError),
        Failure::Domain(Error::LoginInUseError),
        Failure::Domain(Error::NoPermissionError),
        Failure::Transport(TransportFailure::RouteNotFound),
        Failure::Transport(TransportFailure::MethodNotAllowed),
        Failure::Transport(TransportFailure::Unclassified("x".to_string())),
    ];
    for f in &failures {
        let r = translate(f);
        let body = r.body();
        assert!(body.status.starts_with(&format!("{} ", r.status)));
    }
}

#[test]
fn translation_is_repeatable() {
    let f = Failure::Transport(TransportFailure::Unclassified("detail 1".to_string()));
    let a = translate(&f);
    let b = translate(&f);
    assert_eq!(a.status, b.status);
    assert_eq!(a.message, b.message);
    let (ba, bb) = (a.body(), b.body());
    assert_eq!(ba.message, bb.message);
    assert_eq!(ba.status, bb.status);
    let g = Failure::Domain(Error::WrongCredentialsError);
    assert_eq!(translate(&g).message, translate(&g).message);
    assert_eq!(translate(&g).body().status, translate(&g).body().status);
}

#[test]
fn diagnostic_only_for_unclassified() {
    let f = Failure::Transport(TransportFailure::Unclassified("db down".to_string()));
    assert_eq!(diagnostic(&f), Some("db down".to_string()));
    assert_eq!(diagnostic(&Failure::Transport(TransportFailure::RouteNotFound)), None);
    assert_eq!(diagnostic(&Failure::Transport(TransportFailure::MethodNotAllowed)), None);
    assert_eq!(diagnostic(&Failure::Domain(Error::JWTTokenCreationError)), None);
}

#[test]
fn error_messages() {
    assert_eq!(Error::WrongCredentialsError.message(), "wrong credentials");
    assert_eq!(Error::JWTTokenError.message(), "jwt token not valid");
    assert_eq!(Error::JWTTokenCreationError.message(), "jwt token creation error");
    assert_eq!(Error::NoAuthHeaderError.message(), "no auth header");
    assert_eq!(Error::InvalidAuthHeaderError.message(), "invalid auth header");
    assert_eq!(Error::WrongParkingError.message(), "parking not found");
    assert_eq!(Error::LoginInUseError.message(), "This login is taken. Try another.");
    assert_eq!(Error::NoPermissionError.message(), "no permission");
}

#[test]
fn reply_statuses() {
    for code in [400u16, 401, 403, 404, 500] {
        assert!(is_reply_status(code));
    }
    for code in [0u16, 200, 402, 405, 501, 999] {
        assert!(!is_reply_status(code));
    }
}
