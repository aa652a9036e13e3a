use auth_pipeline::ctx::Ctx;
use auth_pipeline::error::{ClientError, Error};
use auth_pipeline::response::Response;
use auth_pipeline::web::mw_auth::{
    mw_ctx_resolver, mw_require_auth, CookieAction, RequestParts, Step,
};
use auth_pipeline::web::mw_res_map::map_response;
use auth_pipeline::web::AUTH_TOKEN;

const REQ_UUID: &str = "936da01f-9abd-4d9d-80c7-02af85c822a8";

fn resolved(auth_token: Option<&str>) -> (RequestParts, CookieAction) {
    let mut parts = RequestParts::new();
    let action = mw_ctx_resolver(auth_token.map(|t| t.to_string()), &mut parts);
    (parts, action)
}

/// What a client gets from a protected route whose handler would answer
/// `200 handled`.
fn protected_route(parts: &RequestParts) -> Response {
    let res = match mw_require_auth(parts) {
        Step::Next(ctx) => {
            Response { status: 200, body: format!("handled for {}", ctx.user_id()), error: None }
        }
        Step::Stop(res) => res,
    };
    let ctx = Ctx::from_request_parts(parts).ok();
    map_response(REQ_UUID.to_string(), ctx, "/api/tickets".to_string(), "GET".to_string(), res).0
}

/// What a client gets from a route that is not protected.
fn public_route(parts: &RequestParts) -> Response {
    let res = Response { status: 200, body: "Hello".to_string(), error: None };
    let ctx = Ctx::from_request_parts(parts).ok();
    map_response(REQ_UUID.to_string(), ctx, "/hello".to_string(), "GET".to_string(), res).0
}

fn no_auth_response() -> Response {
    Response {
        status: 403,
        body: format!(r#"{{"error":{{"type":"NO_AUTH","req_uuid":"{REQ_UUID}"}}}}"#),
        error: None,
    }
}

#[test]
fn the_cookie_is_called_auth_token() {
    assert_eq!(AUTH_TOKEN, "auth-token");
}

#[test]
fn a_request_without_cookie_reaches_a_public_route() {
    let (parts, action) = resolved(None);
    assert_eq!(action, CookieAction::Keep);
    assert_eq!(
        public_route(&parts),
        Response { status: 200, body: "Hello".to_string(), error: None }
    );
}

#[test]
fn a_request_without_cookie_is_stopped_at_a_protected_route() {
    let (parts, action) = resolved(None);
    assert_eq!(action, CookieAction::Keep);
    assert_eq!(Ctx::from_request_parts(&parts), Err(Error::AuthFailNoAuthCookie));
    assert_eq!(
        mw_require_auth(&parts),
        Step::Stop(Response {
            status: 500,
            body: String::new(),
            error: Some(Error::AuthFailNoAuthCookie)
        })
    );
    assert_eq!(protected_route(&parts), no_auth_response());
}

#[test]
fn a_malformed_cookie_is_stopped_at_a_protected_route_and_removed() {
    for token in
        ["garbage", "user-1", "user-x.a.b", "user-1.a.", "", "user-18446744073709551616.a.b"]
    {
        let (parts, action) = resolved(Some(token));
        assert_eq!(action, CookieAction::Remove, "{token:?}");
        assert_eq!(
            Ctx::from_request_parts(&parts),
            Err(Error::AuthFailTokenWrongFormat),
            "{token:?}"
        );
        assert_eq!(protected_route(&parts), no_auth_response(), "{token:?}");
    }
}

#[test]
fn a_malformed_cookie_still_reaches_a_public_route() {
    let (parts, action) = resolved(Some("garbage"));
    assert_eq!(action, CookieAction::Remove);
    assert_eq!(
        public_route(&parts),
        Response { status: 200, body: "Hello".to_string(), error: None }
    );
}

#[test]
fn a_well_formed_cookie_reaches_a_protected_route_as_its_user() {
    let (parts, action) = resolved(Some("user-42.x.y"));
    assert_eq!(action, CookieAction::Keep);
    assert_eq!(Ctx::from_request_parts(&parts), Ok(Ctx::new(42)));
    assert_eq!(Ctx::from_request_parts(&parts).unwrap().user_id(), 42);
    assert_eq!(mw_require_auth(&parts), Step::Next(Ctx::new(42)));
    assert_eq!(
        protected_route(&parts),
        Response { status: 200, body: "handled for 42".to_string(), error: None }
    );
}

#[test]
fn the_identity_is_the_number_in_the_token() {
    for (token, id) in [
        ("user-0.a.b", 0),
        ("user-1.exp.sign", 1),
        ("user-0042.x.y", 42),
        ("user-18446744073709551615.x.y", u64::MAX),
    ] {
        let (parts, action) = resolved(Some(token));
        assert_eq!(action, CookieAction::Keep);
        assert_eq!(mw_require_auth(&parts), Step::Next(Ctx { user_id: id }));
    }
}

#[test]
fn storage_the_resolver_never_saw_is_stopped_as_no_auth() {
    let parts = RequestParts::new();
    assert_eq!(Ctx::from_request_parts(&parts), Err(Error::AuthFailCtxNotInRequestExt));
    assert_eq!(
        Error::AuthFailCtxNotInRequestExt.client_status_and_error(),
        (403, ClientError::NO_AUTH)
    );
    assert_eq!(protected_route(&parts), no_auth_response());
}

#[test]
fn asking_for_the_identity_twice_gives_the_same() {
    for token in [None, Some("user-42.x.y"), Some("garbage")] {
        let (parts, _) = resolved(token);
        let first = Ctx::from_request_parts(&parts);
        let second = Ctx::from_request_parts(&parts);
        let third = Ctx::from_request_parts(&parts);
        assert_eq!(first, second);
        assert_eq!(second, third);
    }
    let parts = RequestParts::new();
    assert_eq!(Ctx::from_request_parts(&parts), Ctx::from_request_parts(&parts));
}

#[test]
fn an_outcome_is_not_overwritten() {
    let (mut parts, _) = resolved(Some("user-42.x.y"));
    let before = parts.clone();
    assert_eq!(mw_ctx_resolver(None, &mut parts), CookieAction::Keep);
    assert_eq!(parts, before);
    assert_eq!(mw_ctx_resolver(Some("garbage".to_string()), &mut parts), CookieAction::Remove);
    assert_eq!(parts, before);
    assert_eq!(mw_ctx_resolver(Some("user-7.x.y".to_string()), &mut parts), CookieAction::Keep);
    assert_eq!(Ctx::from_request_parts(&parts), Ok(Ctx::new(42)));

    let (mut parts, _) = resolved(None);
    mw_ctx_resolver(Some("user-7.x.y".to_string()), &mut parts);
    assert_eq!(Ctx::from_request_parts(&parts), Err(Error::AuthFailNoAuthCookie));
}

#[test]
fn a_context_holds_its_user() {
    assert_eq!(Ctx::new(5).user_id(), 5);
    assert_eq!(Ctx::new(5), Ctx { user_id: 5 });
    assert_ne!(Ctx::new(5), Ctx::new(6));
}
