//! The server-side record of one request.

use crate::ctx::Ctx;
use crate::error::{client_mapping, ClientError, Error};
use vstd::prelude::*;

verus! {

/// The one line the server logs for a request. It is the only place where
/// the internal error is written down in full.
#[derive(Clone, Debug, PartialEq, Eq)]
pub struct RequestLogLine {
    /// The request identifier, the same that an error body shows the client.
    pub uuid: String,
    /// The identified user, if the request had one.
    pub user_id: Option<u64>,
    pub req_path: String,
    pub req_method: String,
    /// The public code sent to the client, if the request failed.
    pub client_error_type: Option<ClientError>,
    /// The internal error, if the request failed.
    pub error: Option<Error>,
}

/// A log line as a mathematical value.
pub struct RequestLogLineView {
    pub uuid: Seq<char>,
    pub user_id: Option<u64>,
    pub req_path: Seq<char>,
    pub req_method: Seq<char>,
    pub client_error_type: Option<ClientError>,
    pub error: Option<Error>,
}

impl View for RequestLogLine {
    type V = RequestLogLineView;

    open spec fn view(&self) -> RequestLogLineView {
        RequestLogLineView {
            uuid: self.uuid@,
            user_id: self.user_id,
            req_path: self.req_path@,
            req_method: self.req_method@,
            client_error_type: self.client_error_type,
            error: self.error,
        }
    }
}

/// The log line of the request `req_method req_path` under the identifier
/// `uuid`, made by `ctx` if it had an identity and failed with `error` if it
/// failed.
pub open spec fn request_log_line(
    uuid: Seq<char>,
    req_method: Seq<char>,
    req_path: Seq<char>,
    ctx: Option<Ctx>,
    error: Option<Error>,
) -> RequestLogLineView {
    RequestLogLineView {
        uuid,
        user_id: match ctx {
            Some(c) => Some(c.user_id),
            None => None,
        },
        req_path,
        req_method,
        client_error_type: match error {
            Some(e) => Some(client_mapping(e).1),
            None => None,
        },
        error,
    }
}

/// Builds the log line of one request.
pub fn log_request(
    uuid: String,
    req_method: String,
    req_path: String,
    ctx: Option<Ctx>,
    error: Option<Error>,
) -> (line: RequestLogLine)
    ensures
        line@ == request_log_line(uuid@, req_method@, req_path@, ctx, error),
{
    let user_id = match ctx {
        Some(c) => Some(c.user_id()),
        None => None,
    };
    let client_error_type = match error {
        Some(e) => Some(e.client_status_and_error().1),
        None => None,
    };
    RequestLogLine { uuid, user_id, req_path, req_method, client_error_type, error }
}

} // verus!
