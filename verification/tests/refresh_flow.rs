use refresh_flow::{
    build_refresh_body, classify_response, ApplicationSecret, HttpPostForm, HttpResponse,
    RefreshFlow, RefreshResult, Token,
};

const SUCCESS_BODY: &str =
    "{\r\n  \"access_token\":\"1/fFAGRNJru1FTz70BzhT3Zg\",\r\n  \"expires_in\":3920,\r\n  \"token_type\":\"Bearer\"\r\n}";

struct FakeTransport {
    reply: Result<(u16, String), String>,
    calls: usize,
    last_uri: String,
    last_body: String,
}

impl FakeTransport {
    fn replying(status: u16, body: &str) -> FakeTransport {
        FakeTransport {
            reply: Ok((status, body.to_string())),
            calls: 0,
            last_uri: String::new(),
            last_body: String::new(),
        }
    }

    fn failing(detail: &str) -> FakeTransport {
        FakeTransport {
            reply: Err(detail.to_string()),
            calls: 0,
            last_uri: String::new(),
            last_body: String::new(),
        }
    }
}

impl HttpPostForm for &mut FakeTransport {
    fn post_form(&mut self, uri: &str, body: &str) -> Result<HttpResponse, String> {
        self.calls += 1;
        self.last_uri = uri.to_string();
        self.last_body = body.to_string();
        match &self.reply {
            Ok((status, text)) => Ok(HttpResponse { status: *status, body: text.clone() }),
            Err(detail) => Err(detail.clone()),
        }
    }
}

fn google_secret() -> ApplicationSecret {
    ApplicationSecret {
        client_id: "384278056379-tr5pbot1mil66749n639jo54i4840u77.apps.googleusercontent.com"
            .to_string(),
        client_secret: "QeQUnhzsiO4t--ZGmj9muUAu".to_string(),
        token_uri: "https://accounts.google.com/o/oauth2/token".to_string(),
    }
}

fn example_secret() -> ApplicationSecret {
    ApplicationSecret {
        client_id: "X".to_string(),
        client_secret: "Y".to_string(),
        token_uri: "https://example/token".to_string(),
    }
}

#[test]
fn refresh_flow() {
    let mut transport = FakeTransport::replying(200, SUCCESS_BODY);
    let mut flow = RefreshFlow::new(&mut transport);

    match *flow.refresh_token(&google_secret(), "bogus_refresh_token") {
        RefreshResult::Success(ref t) => {
            assert_eq!(t.access_token, "1/fFAGRNJru1FTz70BzhT3Zg");
            assert!(!t.expired());
        }
        _ => unreachable!(),
    }
}

#[test]
fn refresh_success_end_to_end() {
    let mut transport = FakeTransport::replying(
        200,
        "{\"access_token\":\"1/fFAGRNJru1FTz70BzhT3Zg\",\"expires_in\":3920,\"token_type\":\"Bearer\"}",
    );
    let mut flow = RefreshFlow::new(&mut transport);

    match *flow.refresh_token(&example_secret(), "bogus_refresh_token") {
        RefreshResult::Success(ref t) => {
            assert_eq!(t.access_token, "1/fFAGRNJru1FTz70BzhT3Zg");
            assert_eq!(t.token_type, "Bearer");
            assert_eq!(t.refresh_token, "bogus_refresh_token");
            assert_eq!(t.expires_in, None);
            assert!(!t.expired());
        }
        _ => unreachable!(),
    }
    assert_eq!(transport.last_uri, "https://example/token");
}

#[test]
fn cached_success_short_circuits() {
    let mut transport = FakeTransport::replying(200, SUCCESS_BODY);
    let mut flow = RefreshFlow::new(&mut transport);

    let first_access = match *flow.refresh_token(&example_secret(), "bogus_refresh_token") {
        RefreshResult::Success(ref t) => t.access_token.clone(),
        _ => unreachable!(),
    };
    match *flow.refresh_token(&example_secret(), "other_token") {
        RefreshResult::Success(ref t) => {
            assert_eq!(t.access_token, first_access);
            assert_eq!(t.refresh_token, "bogus_refresh_token");
        }
        _ => unreachable!(),
    }
    assert_eq!(transport.calls, 1);
}

#[test]
fn expiry_boundary() {
    let token = Token {
        access_token: "a".to_string(),
        token_type: "Bearer".to_string(),
        refresh_token: "r".to_string(),
        expires_in: None,
        expires_in_timestamp: Some(100),
    };
    assert!(token.expired_at(101));
    assert!(token.expired_at(100));
    assert!(!token.expired_at(99));

    let unbounded = Token {
        access_token: "a".to_string(),
        token_type: "Bearer".to_string(),
        refresh_token: "r".to_string(),
        expires_in: Some(3920),
        expires_in_timestamp: None,
    };
    assert!(!unbounded.expired_at(i64::MAX));
}

#[test]
fn transport_failure_is_error() {
    let mut transport = FakeTransport::failing("connection refused");
    let mut flow = RefreshFlow::new(&mut transport);

    match *flow.refresh_token(&example_secret(), "bogus_refresh_token") {
        RefreshResult::Error(ref detail) => assert_eq!(detail, "connection refused"),
        _ => unreachable!(),
    }
}

#[test]
fn missing_access_token_is_error() {
    let mut transport =
        FakeTransport::replying(200, "{\"token_type\":\"Bearer\",\"expires_in\":3920}");
    let mut flow = RefreshFlow::new(&mut transport);

    match *flow.refresh_token(&example_secret(), "bogus_refresh_token") {
        RefreshResult::Error(ref detail) => {
            assert_eq!(detail, "response body did not match the expected token schema");
        }
        _ => unreachable!(),
    }
}

#[test]
fn non_integer_expires_in_is_error() {
    let mut transport = FakeTransport::replying(
        200,
        "{\"access_token\":\"a\",\"token_type\":\"Bearer\",\"expires_in\":\"3920\"}",
    );
    let mut flow = RefreshFlow::new(&mut transport);

    match *flow.refresh_token(&example_secret(), "bogus_refresh_token") {
        RefreshResult::Error(ref detail) => {
            assert_eq!(detail, "response body did not match the expected token schema");
        }
        _ => unreachable!(),
    }
}

#[test]
fn refusal_is_refresh_error() {
    let mut transport = FakeTransport::replying(400, "{\"error\":\"invalid_grant\"}");
    let mut flow = RefreshFlow::new(&mut transport);

    match *flow.refresh_token(&example_secret(), "bogus_refresh_token") {
        RefreshResult::RefreshError(ref message, ref detail) => {
            assert_eq!(message, "invalid_grant");
            assert_eq!(*detail, None);
        }
        _ => unreachable!(),
    }
}

#[test]
fn refusal_with_description_carries_detail() {
    let mut transport = FakeTransport::replying(
        400,
        "{\"error\":\"invalid_grant\",\"error_description\":\"token revoked\"}",
    );
    let mut flow = RefreshFlow::new(&mut transport);

    match *flow.refresh_token(&example_secret(), "bogus_refresh_token") {
        RefreshResult::RefreshError(ref message, ref detail) => {
            assert_eq!(message, "invalid_grant");
            assert_eq!(detail.as_deref(), Some("token revoked"));
        }
        _ => unreachable!(),
    }
}

#[test]
fn refusal_without_error_payload_uses_body() {
    let mut transport = FakeTransport::replying(503, "service unavailable");
    let mut flow = RefreshFlow::new(&mut transport);

    match *flow.refresh_token(&example_secret(), "bogus_refresh_token") {
        RefreshResult::RefreshError(ref message, ref detail) => {
            assert_eq!(message, "service unavailable");
            assert_eq!(*detail, None);
        }
        _ => unreachable!(),
    }
}

#[test]
fn request_body_is_form_encoded() {
    let secret = ApplicationSecret {
        client_id: "my client".to_string(),
        client_secret: "s&cret/2".to_string(),
        token_uri: "https://example/token".to_string(),
    };
    let body = build_refresh_body(&secret, "tok en+x");
    assert_eq!(
        body,
        "client_id=my+client&client_secret=s%26cret%2F2&refresh_token=tok+en%2Bx&grant_type=refresh_token"
    );

    let mut transport = FakeTransport::replying(200, SUCCESS_BODY);
    let mut flow = RefreshFlow::new(&mut transport);
    flow.refresh_token(&secret, "tok en+x");
    assert_eq!(
        transport.last_body,
        "client_id=my+client&client_secret=s%26cret%2F2&refresh_token=tok+en%2Bx&grant_type=refresh_token"
    );
}

#[test]
fn classification_sets_exact_expiry() {
    let response = HttpResponse {
        status: 200,
        body: "{\"access_token\":\"a\",\"token_type\":\"Bearer\",\"expires_in\":3920}".to_string(),
    };
    match classify_response(Ok(response), "rt", 1000) {
        RefreshResult::Success(t) => {
            assert_eq!(t.expires_in_timestamp, Some(4920));
            assert_eq!(t.expires_in, None);
            assert_eq!(t.access_token, "a");
            assert_eq!(t.refresh_token, "rt");
        }
        _ => unreachable!(),
    }
}

#[test]
fn expiry_clamps_at_the_integer_limit() {
    let response = HttpResponse {
        status: 200,
        body: "{\"access_token\":\"a\",\"token_type\":\"Bearer\",\"expires_in\":3920}".to_string(),
    };
    match classify_response(Ok(response), "rt", i64::MAX - 10) {
        RefreshResult::Success(t) => assert_eq!(t.expires_in_timestamp, Some(i64::MAX)),
        _ => unreachable!(),
    }
}

#[test]
fn stale_token_reports_expired() {
    let response = HttpResponse {
        status: 200,
        body: "{\"access_token\":\"a\",\"token_type\":\"Bearer\",\"expires_in\":3920}".to_string(),
    };
    match classify_response(Ok(response), "rt", 0) {
        RefreshResult::Success(t) => {
            assert_eq!(t.expires_in_timestamp, Some(3920));
            assert!(t.expired());
        }
        _ => unreachable!(),
    }
}
