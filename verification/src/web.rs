//! The stages of the request pipeline, in the order a request meets them:
//! the context resolver, the auth guard in front of protected routes, and
//! the response mapper on the way out.

use vstd::prelude::*;

pub mod mw_auth;
pub mod mw_res_map;
pub mod pipeline;

verus! {

/// The name of the cookie that carries the token.
pub const AUTH_TOKEN: &'static str = "auth-token";

} // verus!
