//! The context resolver and the auth guard.
//!
//! The resolver runs on every request: it reads the token the client
//! presented, records in the request's own storage who the caller is or why
//! that could not be told, and never stops the request. The guard runs in
//! front of protected routes and stops every request whose storage does not
//! hold an identity.

use crate::ctx::Ctx;
use crate::error::{pending_error_response, Error};
use crate::response::Response;
use crate::token::{parse_token, token_fields};
use vstd::prelude::*;

verus! {

/// What the resolver found: the caller's identity, or why there is none.
pub open spec fn resolution(auth_token: Option<Seq<char>>) -> Result<Ctx, Error> {
    match auth_token {
        None => Err(Error::AuthFailNoAuthCookie),
        Some(token) => match token_fields(token) {
            Some((user_id, _, _)) => Ok(Ctx { user_id }),
            None => Err(Error::AuthFailTokenWrongFormat),
        },
    }
}

/// What is to happen to the auth cookie in the response.
#[derive(Clone, Copy, Debug, PartialEq, Eq, Structural)]
pub enum CookieAction {
    /// Leave the cookie as the client sent it.
    Keep,
    /// Tell the client to drop the cookie.
    Remove,
}

/// The cookie is removed exactly when one was presented and it was no good.
/// A request without a cookie has nothing to remove.
pub open spec fn cookie_action(auth_token: Option<Seq<char>>) -> CookieAction {
    match resolution(auth_token) {
        Ok(_) | Err(Error::AuthFailNoAuthCookie) => CookieAction::Keep,
        Err(_) => CookieAction::Remove,
    }
}

/// The value of the auth cookie as a sequence of characters.
pub open spec fn cookie_value(auth_token: Option<String>) -> Option<Seq<char>> {
    match auth_token {
        Some(token) => Some(token@),
        None => None,
    }
}

/// The storage that belongs to one request.
///
/// It holds the outcome of the resolver, which is written once: no stage
/// can replace an outcome that is there.
#[derive(Clone, Debug, PartialEq, Eq)]
pub struct RequestParts {
    ctx_result: Option<Result<Ctx, Error>>,
}

/// What the storage holds after the resolver ran on it: the outcome that
/// was there, or else the resolution of the presented token.
pub open spec fn resolved_outcome(
    before: Option<Result<Ctx, Error>>,
    auth_token: Option<Seq<char>>,
) -> Option<Result<Ctx, Error>> {
    match before {
        Some(_) => before,
        None => Some(resolution(auth_token)),
    }
}

/// What a stage finds when it asks the storage for the caller's identity.
pub open spec fn extraction(outcome: Option<Result<Ctx, Error>>) -> Result<Ctx, Error> {
    match outcome {
        Some(result) => result,
        None => Err(Error::AuthFailCtxNotInRequestExt),
    }
}

impl RequestParts {
    /// The recorded outcome of the resolver, if it ran.
    pub closed spec fn outcome(&self) -> Option<Result<Ctx, Error>> {
        self.ctx_result
    }

    /// The storage of a request that no stage has seen yet.
    pub fn new() -> (parts: RequestParts)
        ensures
            parts.outcome() is None,
    {
        RequestParts { ctx_result: None }
    }
}

impl Ctx {
    /// The identity of the caller of this request, as the resolver recorded
    /// it.
    ///
    /// Fails with the resolver's own error if the resolver found no
    /// identity, and with `AuthFailCtxNotInRequestExt` if it never ran. The
    /// storage is only read: any number of calls give the same answer.
    pub fn from_request_parts(parts: &RequestParts) -> (r: Result<Ctx, Error>)
        ensures
            r == extraction(parts.outcome()),
    {
        match parts.ctx_result {
            Some(result) => result,
            None => Err(Error::AuthFailCtxNotInRequestExt),
        }
    }
}

/// Asking twice gives the same answer: what a stage finds in the storage of
/// a request depends on nothing but what the storage holds.
pub proof fn lemma_extraction_repeats(
    parts: RequestParts,
    first: Result<Ctx, Error>,
    second: Result<Ctx, Error>,
)
    requires
        first == extraction(parts.outcome()),
        second == extraction(parts.outcome()),
    ensures
        first == second,
{
}

/// An outcome is written once: when the resolver has run on the storage of
/// a request, no further run changes what the storage holds or what a stage
/// finds in it, whatever token it is run with.
pub proof fn lemma_outcome_is_written_once(
    before: Option<Result<Ctx, Error>>,
    auth_token: Option<Seq<char>>,
    later_token: Option<Seq<char>>,
)
    ensures
        resolved_outcome(before, auth_token) is Some,
        resolved_outcome(resolved_outcome(before, auth_token), later_token) == resolved_outcome(
            before,
            auth_token,
        ),
        extraction(resolved_outcome(resolved_outcome(before, auth_token), later_token))
            == extraction(resolved_outcome(before, auth_token)),
{
}

/// The resolver never invents an identity: it finds a caller exactly for a
/// well-formed token, and then the caller that the token names. Without a
/// cookie it reports `AuthFailNoAuthCookie`, and for a cookie that holds
/// anything else `AuthFailTokenWrongFormat`.
pub proof fn lemma_resolution_follows_the_token(auth_token: Option<Seq<char>>)
    ensures
        match resolution(auth_token) {
            Ok(ctx) => auth_token matches Some(token) && token_fields(token) matches Some(
                (user_id, _, _),
            ) && ctx.user_id == user_id,
            Err(e) => match auth_token {
                None => e == Error::AuthFailNoAuthCookie,
                Some(token) => e == Error::AuthFailTokenWrongFormat && token_fields(token) is None,
            },
        },
{
}

/// What the pipeline does after the guard.
#[derive(Clone, Debug, PartialEq, Eq)]
pub enum Step {
    /// Run the handler, for this caller.
    Next(Ctx),
    /// Skip the handler and answer with this response.
    Stop(Response),
}

/// The auth guard: lets a request through to a protected handler only if the
/// resolver recorded an identity for it.
///
/// Any other request is answered at once with the response of the error
/// that the storage gives.
pub fn mw_require_auth(parts: &RequestParts) -> (step: Step)
    ensures
        match extraction(parts.outcome()) {
            Ok(ctx) => step == Step::Next(ctx),
            Err(e) => step matches Step::Stop(res) && res@ == pending_error_response(e),
        },
{
    match Ctx::from_request_parts(parts) {
        Ok(ctx) => Step::Next(ctx),
        Err(e) => Step::Stop(e.into_response()),
    }
}

/// The context resolver: records who presented `auth_token`.
///
/// The outcome goes into `parts` unless one is there already. The result
/// says what to do with the cookie: a token that was presented and found
/// malformed is to be removed, so that the client stops sending it. The
/// request goes on whatever the outcome; turning it away is the guard's
/// business.
pub fn mw_ctx_resolver(
    auth_token: Option<String>,
    parts: &mut RequestParts,
) -> (action: CookieAction)
    ensures
        final(parts).outcome() == resolved_outcome(old(parts).outcome(), cookie_value(auth_token)),
        action == cookie_action(cookie_value(auth_token)),
{
    let result_ctx = match auth_token {
        None => Err(Error::AuthFailNoAuthCookie),
        Some(token) => match parse_token(token) {
            Ok((user_id, _exp, _sign)) => Ok(Ctx::new(user_id)),
            Err(e) => Err(e),
        },
    };
    let action = match result_ctx {
        Ok(_) | Err(Error::AuthFailNoAuthCookie) => CookieAction::Keep,
        Err(_) => CookieAction::Remove,
    };
    if parts.ctx_result.is_none() {
        parts.ctx_result = Some(result_ctx);
    }
    action
}

} // verus!
