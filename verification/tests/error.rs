use auth_pipeline::error::{
    ClientError, Error, STATUS_BAD_REQUEST, STATUS_FORBIDDEN, STATUS_INTERNAL_SERVER_ERROR,
};
use auth_pipeline::response::Response;

#[test]
fn statuses_have_their_http_numbers() {
    assert_eq!(STATUS_FORBIDDEN, 403);
    assert_eq!(STATUS_BAD_REQUEST, 400);
    assert_eq!(STATUS_INTERNAL_SERVER_ERROR, 500);
}

#[test]
fn login_failure_is_forbidden_as_login_fail() {
    assert_eq!(Error::LoginFail.client_status_and_error(), (403, ClientError::LOGIN_FAIL));
}

#[test]
fn every_auth_failure_is_forbidden_as_no_auth() {
    for e in [
        Error::AuthFailNoAuthCookie,
        Error::AuthFailTokenWrongFormat,
        Error::AuthFailCtxNotInRequestExt,
    ] {
        assert_eq!(e.client_status_and_error(), (403, ClientError::NO_AUTH), "{e:?}");
    }
}

#[test]
fn deleting_an_unknown_ticket_is_a_bad_request() {
    for id in [0, 1, 77, u64::MAX] {
        assert_eq!(
            Error::TicketDeleteFailIdNotFound { id }.client_status_and_error(),
            (400, ClientError::INVALID_PARAMS)
        );
    }
}

#[test]
fn public_codes_are_written_as_they_are_named() {
    assert_eq!(ClientError::LOGIN_FAIL.as_str(), "LOGIN_FAIL");
    assert_eq!(ClientError::NO_AUTH.as_str(), "NO_AUTH");
    assert_eq!(ClientError::INVALID_PARAMS.as_str(), "INVALID_PARAMS");
    assert_eq!(ClientError::SERVICE_ERROR.as_str(), "SERVICE_ERROR");
}

#[test]
fn an_error_becomes_a_response_that_carries_it() {
    for e in [
        Error::LoginFail,
        Error::AuthFailNoAuthCookie,
        Error::AuthFailTokenWrongFormat,
        Error::AuthFailCtxNotInRequestExt,
        Error::TicketDeleteFailIdNotFound { id: 9 },
    ] {
        assert_eq!(
            e.into_response(),
            Response { status: 500, body: String::new(), error: Some(e) }
        );
    }
}
