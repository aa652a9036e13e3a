//! The closed set of failures the service can raise, and what a client is
//! told about each of them.

use crate::response::{Response, ResponseView};
use vstd::prelude::*;

verus! {

/// HTTP status sent with `LOGIN_FAIL` and `NO_AUTH`.
pub const STATUS_FORBIDDEN: u16 = 403;

/// HTTP status sent with `INVALID_PARAMS`.
pub const STATUS_BAD_REQUEST: u16 = 400;

/// HTTP status sent with `SERVICE_ERROR`, and carried by a response that
/// still waits for the response mapper.
pub const STATUS_INTERNAL_SERVER_ERROR: u16 = 500;

/// What went wrong inside the service. Never shown to a client as such.
#[derive(Clone, Copy, Debug, PartialEq, Eq, Structural)]
pub enum Error {
    LoginFail,
    /// The request carried no auth cookie.
    AuthFailNoAuthCookie,
    /// The auth cookie did not hold a well-formed token.
    AuthFailTokenWrongFormat,
    /// The resolver stage never ran for this request.
    AuthFailCtxNotInRequestExt,
    /// No ticket with this identifier is stored.
    TicketDeleteFailIdNotFound { id: u64 },
}

/// The only error information that ever reaches a client.
#[derive(Clone, Copy, Debug, PartialEq, Eq, Structural)]
#[allow(non_camel_case_types)]
pub enum ClientError {
    LOGIN_FAIL,
    NO_AUTH,
    INVALID_PARAMS,
    SERVICE_ERROR,
}

/// The public code `code` as clients read it.
pub open spec fn client_error_name(code: ClientError) -> Seq<char> {
    match code {
        ClientError::LOGIN_FAIL => "LOGIN_FAIL"@,
        ClientError::NO_AUTH => "NO_AUTH"@,
        ClientError::INVALID_PARAMS => "INVALID_PARAMS"@,
        ClientError::SERVICE_ERROR => "SERVICE_ERROR"@,
    }
}

/// The status and public code that stand for the internal error `e`.
///
/// The table ends in a row for every kind that has no row of its own, so
/// that a kind added later is answered with 500 and `SERVICE_ERROR` until
/// it gets one.
pub open spec fn client_mapping(e: Error) -> (u16, ClientError) {
    match e {
        Error::LoginFail => (STATUS_FORBIDDEN, ClientError::LOGIN_FAIL),
        Error::AuthFailNoAuthCookie
        | Error::AuthFailTokenWrongFormat
        | Error::AuthFailCtxNotInRequestExt => (STATUS_FORBIDDEN, ClientError::NO_AUTH),
        Error::TicketDeleteFailIdNotFound { .. } => (
            STATUS_BAD_REQUEST,
            ClientError::INVALID_PARAMS,
        ),
        _ => (STATUS_INTERNAL_SERVER_ERROR, ClientError::SERVICE_ERROR),
    }
}

/// The table is total and tells a client little: every error has one
/// status and one public code, authentication failures of every kind look
/// the same from outside, and what an error carries besides its kind is
/// not shown.
pub proof fn lemma_client_mapping_is_coarse(e: Error)
    ensures
        client_mapping(e).0 == STATUS_FORBIDDEN || client_mapping(e).0 == STATUS_BAD_REQUEST,
        client_mapping(e).1 == ClientError::NO_AUTH <==> (e == Error::AuthFailNoAuthCookie || e
            == Error::AuthFailTokenWrongFormat || e == Error::AuthFailCtxNotInRequestExt),
        client_mapping(e).1 == ClientError::LOGIN_FAIL <==> e == Error::LoginFail,
        client_mapping(e).1 == ClientError::INVALID_PARAMS <==> e is TicketDeleteFailIdNotFound,
        client_mapping(e).1 != ClientError::SERVICE_ERROR,
        client_mapping(e).0 == STATUS_BAD_REQUEST <==> client_mapping(e).1
            == ClientError::INVALID_PARAMS,
{
}

/// The response that stands for the error `e` until the response mapper has
/// rewritten it: an empty body under status 500, with `e` attached.
pub open spec fn pending_error_response(e: Error) -> ResponseView {
    ResponseView { status: STATUS_INTERNAL_SERVER_ERROR, body: Seq::empty(), error: Some(e) }
}

impl ClientError {
    /// The name of this code, as it is written into an error body.
    pub fn as_str(&self) -> (name: &'static str)
        ensures
            name@ == client_error_name(*self),
    {
        match self {
            ClientError::LOGIN_FAIL => "LOGIN_FAIL",
            ClientError::NO_AUTH => "NO_AUTH",
            ClientError::INVALID_PARAMS => "INVALID_PARAMS",
            ClientError::SERVICE_ERROR => "SERVICE_ERROR",
        }
    }
}

impl Error {
    /// The HTTP status and the public code a client receives for this error.
    pub fn client_status_and_error(&self) -> (r: (u16, ClientError))
        ensures
            r == client_mapping(*self),
    {
        #[allow(unreachable_patterns)]
        match self {
            Error::LoginFail => (STATUS_FORBIDDEN, ClientError::LOGIN_FAIL),
            Error::AuthFailNoAuthCookie
            | Error::AuthFailTokenWrongFormat
            | Error::AuthFailCtxNotInRequestExt => (STATUS_FORBIDDEN, ClientError::NO_AUTH),
            Error::TicketDeleteFailIdNotFound { .. } => (
                STATUS_BAD_REQUEST,
                ClientError::INVALID_PARAMS,
            ),
            _ => (STATUS_INTERNAL_SERVER_ERROR, ClientError::SERVICE_ERROR),
        }
    }

    /// Turns this error into a response that carries it.
    ///
    /// The status and the empty body are placeholders: the response mapper
    /// replaces both by what the client is to see.
    pub fn into_response(self) -> (res: Response)
        ensures
            res@ == pending_error_response(self),
    {
        Response { status: STATUS_INTERNAL_SERVER_ERROR, body: String::new(), error: Some(self) }
    }
}

} // verus!
