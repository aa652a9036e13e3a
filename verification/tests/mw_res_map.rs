use auth_pipeline::ctx::Ctx;
use auth_pipeline::error::{ClientError, Error};
use auth_pipeline::log::{log_request, RequestLogLine};
use auth_pipeline::response::{render_client_error_body, Response};
use auth_pipeline::web::mw_res_map::{main_response_mapper, map_response};

const REQ_UUID: &str = "936da01f-9abd-4d9d-80c7-02af85c822a8";

fn is_random_uuid(text: &str) -> bool {
    let chars: Vec<char> = text.chars().collect();
    chars.len() == 36
        && chars.iter().enumerate().all(|(k, c)| match k {
            8 | 13 | 18 | 23 => *c == '-',
            _ => matches!(*c, '0'..='9' | 'a'..='f'),
        })
        && chars[14] == '4'
        && matches!(chars[19], '8' | '9' | 'a' | 'b')
}

#[test]
fn the_error_body_is_written_out_exactly() {
    assert_eq!(
        render_client_error_body(ClientError::NO_AUTH, REQ_UUID),
        r#"{"error":{"type":"NO_AUTH","req_uuid":"936da01f-9abd-4d9d-80c7-02af85c822a8"}}"#
    );
    assert_eq!(
        render_client_error_body(ClientError::LOGIN_FAIL, "a"),
        r#"{"error":{"type":"LOGIN_FAIL","req_uuid":"a"}}"#
    );
    assert_eq!(
        render_client_error_body(ClientError::INVALID_PARAMS, ""),
        r#"{"error":{"type":"INVALID_PARAMS","req_uuid":""}}"#
    );
    assert_eq!(
        render_client_error_body(ClientError::SERVICE_ERROR, REQ_UUID),
        r#"{"error":{"type":"SERVICE_ERROR","req_uuid":"936da01f-9abd-4d9d-80c7-02af85c822a8"}}"#
    );
}

#[test]
fn the_error_body_is_json_with_the_code_and_the_identifier_only() {
    let body = render_client_error_body(ClientError::NO_AUTH, REQ_UUID);
    let value: serde_json::Value = serde_json::from_str(&body).unwrap();
    let top = value.as_object().unwrap();
    assert_eq!(top.len(), 1);
    let error = top["error"].as_object().unwrap();
    assert_eq!(error.len(), 2);
    assert_eq!(error["type"].as_str(), Some("NO_AUTH"));
    assert_eq!(error["req_uuid"].as_str(), Some(REQ_UUID));
}

#[test]
fn a_response_without_error_passes_unchanged() {
    let res = Response { status: 200, body: "<p>Hello</p>".to_string(), error: None };
    let (mapped, line) = map_response(
        REQ_UUID.to_string(),
        Some(Ctx::new(42)),
        "/hello".to_string(),
        "GET".to_string(),
        res.clone(),
    );
    assert_eq!(mapped, res);
    assert_eq!(
        line,
        RequestLogLine {
            uuid: REQ_UUID.to_string(),
            user_id: Some(42),
            req_path: "/hello".to_string(),
            req_method: "GET".to_string(),
            client_error_type: None,
            error: None,
        }
    );
    let odd = Response { status: 500, body: "down".to_string(), error: None };
    let (mapped, _) = map_response(
        REQ_UUID.to_string(),
        None,
        "/".to_string(),
        "GET".to_string(),
        odd.clone(),
    );
    assert_eq!(mapped, odd);
}

#[test]
fn an_error_response_is_replaced() {
    let res = Response {
        status: 500,
        body: "token was user-1: internal detail".to_string(),
        error: Some(Error::AuthFailTokenWrongFormat),
    };
    let (mapped, line) = map_response(
        REQ_UUID.to_string(),
        None,
        "/api/tickets".to_string(),
        "POST".to_string(),
        res,
    );
    assert_eq!(
        mapped,
        Response {
            status: 403,
            body: format!(r#"{{"error":{{"type":"NO_AUTH","req_uuid":"{REQ_UUID}"}}}}"#),
            error: None,
        }
    );
    assert_eq!(
        line,
        RequestLogLine {
            uuid: REQ_UUID.to_string(),
            user_id: None,
            req_path: "/api/tickets".to_string(),
            req_method: "POST".to_string(),
            client_error_type: Some(ClientError::NO_AUTH),
            error: Some(Error::AuthFailTokenWrongFormat),
        }
    );
}

#[test]
fn every_error_is_mapped_by_the_table() {
    for (e, status, code) in [
        (Error::LoginFail, 403, "LOGIN_FAIL"),
        (Error::AuthFailNoAuthCookie, 403, "NO_AUTH"),
        (Error::AuthFailTokenWrongFormat, 403, "NO_AUTH"),
        (Error::AuthFailCtxNotInRequestExt, 403, "NO_AUTH"),
        (Error::TicketDeleteFailIdNotFound { id: 3 }, 400, "INVALID_PARAMS"),
    ] {
        let (mapped, line) = map_response(
            "id".to_string(),
            Some(Ctx::new(1)),
            "/p".to_string(),
            "DELETE".to_string(),
            e.into_response(),
        );
        assert_eq!(mapped.status, status);
        assert_eq!(mapped.body, format!(r#"{{"error":{{"type":"{code}","req_uuid":"id"}}}}"#));
        assert_eq!(mapped.error, None);
        assert_eq!(line.error, Some(e));
        assert_eq!(line.client_error_type.map(|c| c.as_str()), Some(code));
        assert_eq!(line.user_id, Some(1));
    }
}

#[test]
fn the_body_does_not_show_what_the_error_carries() {
    let (mapped, line) = map_response(
        REQ_UUID.to_string(),
        None,
        "/api/tickets/123456789".to_string(),
        "DELETE".to_string(),
        Error::TicketDeleteFailIdNotFound { id: 123456789 }.into_response(),
    );
    assert!(!mapped.body.contains("123456789"));
    assert_eq!(line.error, Some(Error::TicketDeleteFailIdNotFound { id: 123456789 }));
}

#[test]
fn body_and_log_line_share_the_identifier() {
    let (mapped, line) = main_response_mapper(
        None,
        "/api/tickets".to_string(),
        "GET".to_string(),
        Error::AuthFailNoAuthCookie.into_response(),
    );
    assert!(is_random_uuid(&line.uuid), "{}", line.uuid);
    assert_eq!(mapped.status, 403);
    assert_eq!(
        mapped.body,
        format!(r#"{{"error":{{"type":"NO_AUTH","req_uuid":"{}"}}}}"#, line.uuid)
    );
    assert_eq!(mapped.body.matches(line.uuid.as_str()).count(), 1);
}

#[test]
fn the_mapper_logs_every_request_under_a_fresh_identifier() {
    let res = Response { status: 200, body: "ok".to_string(), error: None };
    let (first, first_line) = main_response_mapper(
        Some(Ctx::new(9)),
        "/hello".to_string(),
        "GET".to_string(),
        res.clone(),
    );
    let (second, second_line) = main_response_mapper(
        Some(Ctx::new(9)),
        "/hello".to_string(),
        "GET".to_string(),
        res.clone(),
    );
    assert_eq!(first, res);
    assert_eq!(second, res);
    assert!(is_random_uuid(&first_line.uuid), "{}", first_line.uuid);
    assert!(is_random_uuid(&second_line.uuid), "{}", second_line.uuid);
    assert_ne!(first_line.uuid, second_line.uuid);
    assert_eq!(first_line.user_id, Some(9));
    assert_eq!(first_line.req_path, "/hello");
    assert_eq!(first_line.req_method, "GET");
    assert_eq!(first_line.error, None);
    assert_eq!(first_line.client_error_type, None);
}

#[test]
fn a_log_line_records_the_request() {
    assert_eq!(
        log_request(
            "u".to_string(),
            "PUT".to_string(),
            "/a/b".to_string(),
            Some(Ctx::new(3)),
            Some(Error::LoginFail)
        ),
        RequestLogLine {
            uuid: "u".to_string(),
            user_id: Some(3),
            req_path: "/a/b".to_string(),
            req_method: "PUT".to_string(),
            client_error_type: Some(ClientError::LOGIN_FAIL),
            error: Some(Error::LoginFail),
        }
    );
}
