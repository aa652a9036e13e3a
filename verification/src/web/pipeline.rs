//! What holds of a request that passes all the stages: the resolver on its
//! fresh storage, the guard in front of a protected route, and the response
//! mapper on the way out.

use crate::ctx::Ctx;
use crate::error::{
    pending_error_response, ClientError, Error, STATUS_BAD_REQUEST, STATUS_FORBIDDEN,
};
use crate::response::{client_error_body, ResponseView};
use crate::token::{decimal_value, is_valid_token_of, lemma_token_fields_unique, token_fields};
use crate::web::mw_auth::{cookie_action, extraction, resolved_outcome, CookieAction};
use crate::web::mw_res_map::mapped_response;
use vstd::prelude::*;

verus! {

/// What the guard finds for a request that presented `auth_token`, after the
/// resolver ran on the request's fresh storage.
pub open spec fn caller_of(auth_token: Option<Seq<char>>) -> Result<Ctx, Error> {
    extraction(resolved_outcome(None, auth_token))
}

/// The response a client gets from a protected route that the guard did not
/// let it reach: status 403 and the public code `NO_AUTH`.
pub open spec fn no_auth_response(req_uuid: Seq<char>) -> ResponseView {
    ResponseView {
        status: STATUS_FORBIDDEN,
        body: client_error_body(ClientError::NO_AUTH, req_uuid),
        error: None,
    }
}

/// No stage before the handler touches the response of a route that is not
/// protected, and the mapper hands on a response without an error as it
/// is: such a route answers whatever the request presented.
pub proof fn lemma_public_route_answers(res: ResponseView, req_uuid: Seq<char>)
    requires
        res.error is None,
    ensures
        mapped_response(res, req_uuid) == res,
{
}

/// A request without an auth cookie is stopped in front of a protected
/// route: the client receives 403 and `NO_AUTH`. There is no cookie to
/// remove.
pub proof fn lemma_request_without_cookie_is_stopped(req_uuid: Seq<char>)
    ensures
        caller_of(None) == Err::<Ctx, Error>(Error::AuthFailNoAuthCookie),
        mapped_response(pending_error_response(Error::AuthFailNoAuthCookie), req_uuid)
            == no_auth_response(req_uuid),
        cookie_action(None) == CookieAction::Keep,
{
}

/// A request whose auth cookie holds no well-formed token is stopped in
/// front of a protected route: the client receives 403 and `NO_AUTH`, and
/// is told to drop the cookie.
pub proof fn lemma_request_with_malformed_cookie_is_stopped(
    token: Seq<char>,
    req_uuid: Seq<char>,
)
    requires
        token_fields(token) is None,
    ensures
        caller_of(Some(token)) == Err::<Ctx, Error>(Error::AuthFailTokenWrongFormat),
        mapped_response(pending_error_response(Error::AuthFailTokenWrongFormat), req_uuid)
            == no_auth_response(req_uuid),
        cookie_action(Some(token)) == CookieAction::Remove,
{
}

/// A request whose auth cookie holds a well-formed token reaches a
/// protected route as the user that the digits of the token name, and keeps
/// its cookie.
pub proof fn lemma_request_with_token_is_let_through(
    token: Seq<char>,
    digits: Seq<char>,
    expiry: Seq<char>,
    signature: Seq<char>,
)
    requires
        is_valid_token_of(token, digits, expiry, signature),
    ensures
        caller_of(Some(token)) == Ok::<Ctx, Error>(
            Ctx { user_id: decimal_value(digits) as u64 },
        ),
        cookie_action(Some(token)) == CookieAction::Keep,
{
    let (d, e, s) = choose|d: Seq<char>, e: Seq<char>, s: Seq<char>|
        is_valid_token_of(token, d, e, s);
    lemma_token_fields_unique(token, digits, expiry, signature, d, e, s);
}

/// A request to delete a ticket that is not stored is answered with 400
/// and `INVALID_PARAMS`, whatever the identifier.
pub proof fn lemma_unknown_ticket_is_a_bad_request(id: u64, req_uuid: Seq<char>)
    ensures
        mapped_response(
            pending_error_response(Error::TicketDeleteFailIdNotFound { id }),
            req_uuid,
        ) == (ResponseView {
            status: STATUS_BAD_REQUEST,
            body: client_error_body(ClientError::INVALID_PARAMS, req_uuid),
            error: None,
        }),
{
}

/// A request whose storage the resolver never saw is stopped in front of a
/// protected route like one without identity: the client receives 403 and
/// `NO_AUTH`.
pub proof fn lemma_unresolved_request_is_stopped(req_uuid: Seq<char>)
    ensures
        extraction(None) == Err::<Ctx, Error>(Error::AuthFailCtxNotInRequestExt),
        mapped_response(pending_error_response(Error::AuthFailCtxNotInRequestExt), req_uuid)
            == no_auth_response(req_uuid),
{
}

} // verus!
