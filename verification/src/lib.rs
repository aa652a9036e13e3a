//! Request authentication for a cookie-token web service, kept free of any
//! web framework: the token codec, the per-request identity context, the
//! resolver and guard stages, the error taxonomy and the response mapper.
//!
//! Every stage is a function on plain values whose contract is stated over
//! spec functions, so an embedding server only moves values between its
//! framework and these functions.

pub mod ctx;
pub mod error;
pub mod log;
pub mod model;
pub mod request_id;
pub mod response;
pub mod token;
pub mod web;

pub use ctx::Ctx;
pub use error::{ClientError, Error};
pub use response::Response;
