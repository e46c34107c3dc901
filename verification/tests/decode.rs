use ntfy_api::NtfyError;
use ntfy_api::NtfyErrorResponse;
use ntfy_api::NtfyResponse;
use ntfy_api::decode_response;

// The embedding application parses response bodies with a JSON parser and
// hands the outcome to `decode_response`; these helpers stand in for it.

fn parse_success(body: &str) -> Option<NtfyResponse> {
    let v: serde_json::Value = serde_json::from_str(body).ok()?;
    let obj = v.as_object()?;
    Some(NtfyResponse {
        id: obj.get("id")?.as_str()?.to_string(),
        time: obj.get("time")?.as_u64()?,
        event: match obj.get("event") {
            Some(e) => Some(e.as_str()?.to_string()),
            None => None,
        },
        topic: obj.get("topic")?.as_str()?.to_string(),
        message: None,
        title: None,
        tags: None,
        priority: None,
        click: None,
        action: None,
        attachment: None,
    })
}

fn parse_failure(body: &str) -> Option<NtfyErrorResponse> {
    let v: serde_json::Value = serde_json::from_str(body).ok()?;
    let obj = v.as_object()?;
    Some(NtfyErrorResponse {
        code: obj.get("code")?.as_u64()?,
        http: u16::try_from(obj.get("http")?.as_u64()?).ok()?,
        error: obj.get("error")?.as_str()?.to_string(),
        link: match obj.get("link") {
            Some(l) => Some(l.as_str()?.to_string()),
            None => None,
        },
    })
}

#[test]
fn success_body_yields_the_payload() {
    let body = "{\"id\":\"abc\",\"time\":1,\"expired\":false,\"topic\":\"alerts\"}";
    let r = decode_response(200, parse_success(body), None);
    let payload = r.expect("2xx with a parseable body is a success");
    assert_eq!(payload.id, "abc");
    assert_eq!(payload.time, 1);
    assert_eq!(payload.topic, "alerts");
}

#[test]
fn error_body_yields_an_api_error() {
    let body = "{\"code\":40101,\"http\":403,\"error\":\"unauthorized\"}";
    let r = decode_response(403, None, parse_failure(body));
    match r {
        Err(NtfyError::ApiError(e)) => {
            assert_eq!(e.code, 40101);
            assert_eq!(e.http, 403);
            assert_eq!(e.error, "unauthorized");
            assert_eq!(e.link, None);
        },
        _ => panic!("expected an API error"),
    }
}

#[test]
fn unparseable_success_body_is_a_decode_error() {
    let r = decode_response(200, parse_success("ok"), None);
    assert_eq!(r, Err(NtfyError::DecodeError));
    let quoted = decode_response(204, parse_success("\"ok\""), None);
    assert_eq!(quoted, Err(NtfyError::DecodeError));
}

#[test]
fn unparseable_error_body_is_a_decode_error_not_a_fabricated_one() {
    let r = decode_response(500, None, parse_failure("<html>boom</html>"));
    assert_eq!(r, Err(NtfyError::DecodeError));
}

#[test]
fn status_classes_pick_the_schema() {
    let ok_body = "{\"id\":\"x\",\"time\":2,\"topic\":\"t\",\"event\":\"message\"}";
    let err_body = "{\"code\":41801,\"http\":418,\"error\":\"teapot\",\"link\":\"https://e/d\"}";
    let r = decode_response(299, parse_success(ok_body), None);
    assert_eq!(r.unwrap().event.as_deref(), Some("message"));
    let r = decode_response(300, None, parse_failure(err_body));
    match r {
        Err(NtfyError::ApiError(e)) => assert_eq!(e.link.as_deref(), Some("https://e/d")),
        _ => panic!("expected an API error"),
    }
    let r = decode_response(199, parse_success(ok_body), None);
    assert_eq!(r, Err(NtfyError::DecodeError));
}

#[test]
fn transport_errors_are_their_own_kind() {
    let e = NtfyError::TransportError("connection refused".to_string());
    match e {
        NtfyError::TransportError(cause) => assert_eq!(cause, "connection refused"),
        _ => panic!("expected a transport error"),
    }
}
