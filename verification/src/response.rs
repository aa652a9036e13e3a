//! The responses that travel back through the pipeline.

use crate::error::{client_error_name, ClientError, Error};
use crate::request_id::{is_hyphen_position, is_lower_hex, is_random_uuid};
use vstd::prelude::*;
use vstd::string::*;

verus! {

/// A response on its way to the client.
///
/// A stage that fails attaches its error to the response in `error`; the
/// response mapper is the one stage that reads it, and no response leaves the
/// mapper with an error attached.
#[derive(Clone, Debug, PartialEq, Eq)]
pub struct Response {
    /// The HTTP status.
    pub status: u16,
    /// The body, as text.
    pub body: String,
    /// The internal error that produced this response, if one did.
    pub error: Option<Error>,
}

/// A response as a mathematical value.
pub struct ResponseView {
    pub status: u16,
    pub body: Seq<char>,
    pub error: Option<Error>,
}

impl View for Response {
    type V = ResponseView;

    open spec fn view(&self) -> ResponseView {
        ResponseView { status: self.status, body: self.body@, error: self.error }
    }
}

/// The body of every error response: a JSON object that holds the public
/// code and the request identifier, and nothing else.
pub open spec fn client_error_body(code: ClientError, req_uuid: Seq<char>) -> Seq<char> {
    "{\"error\":{\"type\":\""@ + client_error_name(code) + "\",\"req_uuid\":\""@ + req_uuid
        + "\"}}"@
}

/// `c` stands in a JSON string as it is, with no escape before it.
pub open spec fn is_plain_in_json(c: char) -> bool {
    c != '"' && c != '\\' && ' ' <= c
}

/// Every character of `s` stands in a JSON string as it is.
pub open spec fn is_plain_json_text(s: Seq<char>) -> bool {
    forall|k: int| 0 <= k < s.len() ==> is_plain_in_json(#[trigger] s[k])
}

/// An error body is written without any escape, and needs none: neither a
/// public code nor a random UUID holds a character that JSON would escape.
pub proof fn lemma_error_body_needs_no_escape(code: ClientError, req_uuid: Seq<char>)
    requires
        is_random_uuid(req_uuid),
    ensures
        is_plain_json_text(client_error_name(code)),
        is_plain_json_text(req_uuid),
{
    reveal_strlit("LOGIN_FAIL");
    reveal_strlit("NO_AUTH");
    reveal_strlit("INVALID_PARAMS");
    reveal_strlit("SERVICE_ERROR");
    assert forall|k: int| 0 <= k < req_uuid.len() implies is_plain_in_json(
        #[trigger] req_uuid[k],
    ) by {
        if is_hyphen_position(k) {
        } else {
            assert(is_lower_hex(req_uuid[k]));
        }
    }
}

/// Writes the body of the error response with this public code and request
/// identifier.
pub fn render_client_error_body(code: ClientError, req_uuid: &str) -> (body: String)
    ensures
        body@ == client_error_body(code, req_uuid@),
{
    let mut body = String::from_str("{\"error\":{\"type\":\"");
    body.append(code.as_str());
    body.append("\",\"req_uuid\":\"");
    body.append(req_uuid);
    body.append("\"}}");
    body
}

} // verus!
