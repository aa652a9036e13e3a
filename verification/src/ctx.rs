//! The identity of an authenticated caller.

use vstd::prelude::*;

verus! {

/// The identity resolved for one request: the validated user identifier and
/// nothing else.
///
/// The resolver stage builds one per request from the presented token, and
/// later stages receive copies of it; nothing is kept between requests.
#[derive(Clone, Copy, Debug, PartialEq, Eq, Structural)]
pub struct Ctx {
    pub user_id: u64,
}

impl Ctx {
    /// The context of the user `user_id`.
    pub fn new(user_id: u64) -> (ctx: Ctx)
        ensures
            ctx == (Ctx { user_id }),
    {
        Ctx { user_id }
    }

    /// The validated user identifier.
    pub fn user_id(&self) -> (id: u64)
        ensures
            id == self.user_id,
    {
        self.user_id
    }
}

} // verus!
