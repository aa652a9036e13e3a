//! The response mapper: the last stage, which every response passes.

use crate::ctx::Ctx;
use crate::error::{client_error_name, client_mapping};
use crate::log::{log_request, request_log_line, RequestLogLine};
use crate::request_id::{is_random_uuid, new_request_uuid};
use crate::response::{client_error_body, render_client_error_body, Response, ResponseView};
use vstd::prelude::*;

verus! {

/// What the client receives in place of `res`.
///
/// A response with an error attached is replaced: its status and body are
/// those of the error's public code, and the body it came with is gone. Any
/// other response is left as it is.
pub open spec fn mapped_response(res: ResponseView, req_uuid: Seq<char>) -> ResponseView {
    match res.error {
        Some(e) => ResponseView {
            status: client_mapping(e).0,
            body: client_error_body(client_mapping(e).1, req_uuid),
            error: None,
        },
        None => res,
    }
}

/// `text` holds `part` somewhere within it.
pub open spec fn holds_text(text: Seq<char>, part: Seq<char>) -> bool {
    exists|from: int|
        0 <= from <= text.len() - part.len() && #[trigger] text.subrange(
            from,
            from + part.len(),
        ) == part
}

/// One identifier stands for a request wherever the request is recorded:
/// the log line always carries it, and the body that an error response
/// leaves the mapper with carries the same. A response without an error
/// leaves as it came, so the log line is then the only record.
pub proof fn lemma_request_id_ties_body_to_log(
    res: ResponseView,
    req_uuid: Seq<char>,
    ctx: Option<Ctx>,
    uri: Seq<char>,
    req_method: Seq<char>,
)
    ensures
        request_log_line(req_uuid, req_method, uri, ctx, res.error).uuid == req_uuid,
        res.error is Some ==> holds_text(mapped_response(res, req_uuid).body, req_uuid),
        res.error is None ==> mapped_response(res, req_uuid) == res,
{
    if let Some(e) = res.error {
        let body = mapped_response(res, req_uuid).body;
        let head = "{\"error\":{\"type\":\""@ + client_error_name(client_mapping(e).1)
            + "\",\"req_uuid\":\""@;
        assert(body == head + req_uuid + "\"}}"@);
        let from: int = head.len() as int;
        assert(body.subrange(from, from + req_uuid.len()) =~= req_uuid);
    }
}

/// A client learns of an error its public code and nothing else: two
/// errors with the same public code and status give the same response.
pub proof fn lemma_client_sees_the_public_code_only(
    first: ResponseView,
    second: ResponseView,
    req_uuid: Seq<char>,
)
    requires
        first.error matches Some(e1) && second.error matches Some(e2) && client_mapping(e1)
            == client_mapping(e2),
    ensures
        mapped_response(first, req_uuid) == mapped_response(second, req_uuid),
        mapped_response(first, req_uuid).error is None,
{
}

/// Maps the response `res` of the request `req_method uri` under the request
/// identifier `req_uuid`, and writes the request's log line.
pub fn map_response(
    req_uuid: String,
    ctx: Option<Ctx>,
    uri: String,
    req_method: String,
    res: Response,
) -> (out: (Response, RequestLogLine))
    ensures
        out.0@ == mapped_response(res@, req_uuid@),
        res.error is None ==> out.0 == res,
        out.1@ == request_log_line(req_uuid@, req_method@, uri@, ctx, res.error),
{
    let service_error = res.error;
    let mapped = match service_error {
        Some(e) => {
            let (status, client_error) = e.client_status_and_error();
            let body = render_client_error_body(client_error, req_uuid.as_str());
            Response { status, body, error: None }
        },
        None => res,
    };
    let line = log_request(req_uuid, req_method, uri, ctx, service_error);
    (mapped, line)
}

/// The response mapper: gives the request a fresh identifier, turns an
/// error response into what the client may see, and writes the one log line
/// of the request.
pub fn main_response_mapper(
    ctx: Option<Ctx>,
    uri: String,
    req_method: String,
    res: Response,
) -> (out: (Response, RequestLogLine))
    ensures
        is_random_uuid(out.1@.uuid),
        out.0@ == mapped_response(res@, out.1@.uuid),
        res.error is None ==> out.0 == res,
        out.1@ == request_log_line(out.1@.uuid, req_method@, uri@, ctx, res.error),
{
    let req_uuid = new_request_uuid();
    map_response(req_uuid, ctx, uri, req_method, res)
}

} // verus!
