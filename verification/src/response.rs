//! Interpretation of the authorization server's answer: decode the token
//! schema, and classify the exchange's outcome.

use vstd::prelude::*;

use crate::token::{Token, TokenModel};

verus! {

/// What the injected HTTP capability hands back when the request itself went
/// through: the response's status code and its body text.
pub struct HttpResponse {
    pub status: u16,
    pub body: String,
}

/// The mathematical model of an `HttpResponse`.
pub struct HttpResponseModel {
    pub status: u16,
    pub body: Seq<char>,
}

impl View for HttpResponse {
    type V = HttpResponseModel;

    open spec fn view(&self) -> HttpResponseModel {
        HttpResponseModel { status: self.status, body: self.body@ }
    }
}

/// All possible outcomes of the refresh flow.
pub enum RefreshResult {
    /// The request could not be completed, or the response did not match the
    /// expected token schema; the detail says which. Retryable.
    Error(String),
    /// The server was reached and refused the refresh, providing the server
    /// message and, where available, a secondary detail. Not retryable: the
    /// refresh token is no longer good and a full re-authorization is needed.
    RefreshError(String, Option<String>),
    /// The refresh finished successfully, providing a new `Token`.
    Success(Token),
}

/// The mathematical model of a `RefreshResult`.
pub enum RefreshResultModel {
    Error(Seq<char>),
    RefreshError(Seq<char>, Option<Seq<char>>),
    Success(TokenModel),
}

impl View for RefreshResult {
    type V = RefreshResultModel;

    open spec fn view(&self) -> RefreshResultModel {
        match self {
            RefreshResult::Error(detail) => RefreshResultModel::Error(detail@),
            RefreshResult::RefreshError(message, detail) => RefreshResultModel::RefreshError(
                message@,
                match detail {
                    Some(d) => Some(d@),
                    None => None,
                },
            ),
            RefreshResult::Success(token) => RefreshResultModel::Success(token@),
        }
    }
}

/// The string value at a top-level key of a JSON text: `None` when the text
/// does not parse as JSON, the key is absent, or its value is not a string.
/// A function of the text alone; left uninterpreted, since stating it in
/// full would restate the JSON grammar.
pub uninterp spec fn json_str_field(text: Seq<char>, key: Seq<char>) -> Option<Seq<char>>;

/// The integer value at a top-level key of a JSON text: `None` when the text
/// does not parse as JSON, the key is absent, or its value is not an integer
/// that fits in `i64`. A function of the text alone.
pub uninterp spec fn json_i64_field(text: Seq<char>, key: Seq<char>) -> Option<i64>;

/// Relies on serde_json::from_str::<serde_json::Value>, Value::get and
/// Value::as_str: the string at a top-level key of a JSON text, a function
/// of the text and the key alone.
#[verifier::external_body]
fn json_string_at(text: &str, key: &str) -> (r: Option<String>)
    ensures
        r matches Some(s) ==> json_str_field(text@, key@) == Some(s@),
        r is None ==> json_str_field(text@, key@) is None,
{
    match serde_json::from_str::<serde_json::Value>(text) {
        Ok(value) => value.get(key).and_then(|field| field.as_str()).map(|s| s.to_string()),
        Err(_) => None,
    }
}

/// Relies on serde_json::from_str::<serde_json::Value>, Value::get and
/// Value::as_i64: the integer at a top-level key of a JSON text, a function
/// of the text and the key alone.
#[verifier::external_body]
fn json_i64_at(text: &str, key: &str) -> (r: Option<i64>)
    ensures
        r == json_i64_field(text@, key@),
{
    match serde_json::from_str::<serde_json::Value>(text) {
        Ok(value) => value.get(key).and_then(|field| field.as_i64()),
        Err(_) => None,
    }
}

/// The fields of a body that matches the expected success schema
/// `{access_token: string, token_type: string, expires_in: integer}`;
/// `None` when any of the three is missing or of the wrong shape.
pub open spec fn decoded_token_fields(body: Seq<char>) -> Option<(Seq<char>, Seq<char>, i64)> {
    match (
        json_str_field(body, "access_token"@),
        json_str_field(body, "token_type"@),
        json_i64_field(body, "expires_in"@),
    ) {
        (Some(access), Some(kind), Some(lifetime)) => Some((access, kind, lifetime)),
        _ => None,
    }
}

/// Decode a response body against the expected success schema.
pub fn decode_token_body(body: &str) -> (r: Option<(String, String, i64)>)
    ensures
        r matches Some(f) ==> decoded_token_fields(body@) == Some((f.0@, f.1@, f.2)),
        r is None ==> decoded_token_fields(body@) is None,
{
    let access = json_string_at(body, "access_token");
    let kind = json_string_at(body, "token_type");
    let lifetime = json_i64_at(body, "expires_in");
    match (access, kind, lifetime) {
        (Some(access), Some(kind), Some(lifetime)) => Some((access, kind, lifetime)),
        _ => None,
    }
}

/// The message an authorization failure carries: the server's `error` field
/// where the error payload has one, the whole body otherwise.
pub open spec fn auth_error_message(body: Seq<char>) -> Seq<char> {
    match json_str_field(body, "error"@) {
        Some(message) => message,
        None => body,
    }
}

/// The secondary detail an authorization failure carries: the server's
/// `error_description` field, where the error payload has one.
pub open spec fn auth_error_detail(body: Seq<char>) -> Option<Seq<char>> {
    json_str_field(body, "error_description"@)
}

/// Addition on `i64` instants, clamped to the representable range.
pub open spec fn sat_add_i64(a: int, b: int) -> int {
    if a + b > i64::MAX {
        i64::MAX as int
    } else if a + b < i64::MIN {
        i64::MIN as int
    } else {
        a + b
    }
}

fn sat_add(a: i64, b: i64) -> (r: i64)
    ensures
        r as int == sat_add_i64(a as int, b as int),
{
    if b >= 0 {
        if a <= i64::MAX - b {
            a + b
        } else {
            i64::MAX
        }
    } else {
        if a >= i64::MIN - b {
            a + b
        } else {
            i64::MIN
        }
    }
}

/// The outcome of one refresh exchange, as a function of what the transport
/// handed back, the refresh token that was sent, and the instant `now` the
/// answer arrived at:
/// - a transport failure is an `Error` carrying its detail;
/// - a response outside the 2xx range is a `RefreshError` carrying the
///   server's message and optional detail;
/// - a 2xx response whose body matches the token schema is a `Success`
///   carrying a token that keeps the refresh token sent, takes the server's
///   `access_token` and `token_type`, leaves the relative lifetime unset,
///   and expires at `now + expires_in` (clamped to `i64`);
/// - a 2xx response whose body does not match the schema is an `Error`.
pub open spec fn classify_response_model(
    resp: Result<HttpResponseModel, Seq<char>>,
    refresh_token: Seq<char>,
    now: int,
) -> RefreshResultModel {
    match resp {
        Result::Err(detail) => RefreshResultModel::Error(detail),
        Result::Ok(response) => if !(200 <= response.status < 300) {
            RefreshResultModel::RefreshError(
                auth_error_message(response.body),
                auth_error_detail(response.body),
            )
        } else {
            match decoded_token_fields(response.body) {
                Some(fields) => RefreshResultModel::Success(
                    TokenModel {
                        access_token: fields.0,
                        token_type: fields.1,
                        refresh_token: refresh_token,
                        expires_in: None,
                        expires_in_timestamp: Some(sat_add_i64(now, fields.2 as int)),
                    },
                ),
                None => RefreshResultModel::Error(
                    "response body did not match the expected token schema"@,
                ),
            }
        },
    }
}

/// For every refresh token and instant, a transport failure classifies as
/// `Error` carrying exactly the failure's detail: it never produces a token
/// and never counts as a server refusal.
pub proof fn lemma_transport_failure_classification(
    detail: Seq<char>,
    refresh_token: Seq<char>,
    now: int,
) ensures
    classify_response_model(Result::Err(detail), refresh_token, now)
        == RefreshResultModel::Error(detail),
{
}

/// For every 2xx response whose body matches the success schema, and every
/// instant `now` at which the sum does not leave `i64`, classification
/// yields `Success` with the server's access token and token type, the
/// refresh token that was sent, no relative lifetime, and expiry exactly
/// `now + expires_in`.
pub proof fn lemma_success_classification(
    resp: HttpResponseModel,
    refresh_token: Seq<char>,
    now: int,
    access: Seq<char>,
    kind: Seq<char>,
    lifetime: i64,
) requires
    200 <= resp.status < 300,
    decoded_token_fields(resp.body) == Some((access, kind, lifetime)),
    i64::MIN <= now + lifetime <= i64::MAX,
 ensures
    classify_response_model(Result::Ok(resp), refresh_token, now)
        == RefreshResultModel::Success(
        TokenModel {
            access_token: access,
            token_type: kind,
            refresh_token: refresh_token,
            expires_in: None,
            expires_in_timestamp: Some(now + lifetime),
        },
    ),
{
}

/// A 2xx response whose body lacks a string `access_token` field classifies
/// as a retryable `Error` for the schema violation, never as `Success`.
pub proof fn lemma_missing_access_token_classification(
    resp: HttpResponseModel,
    refresh_token: Seq<char>,
    now: int,
) requires
    200 <= resp.status < 300,
 ensures
    json_str_field(resp.body, "access_token"@) is None ==> classify_response_model(
        Result::Ok(resp),
        refresh_token,
        now,
    ) == RefreshResultModel::Error("response body did not match the expected token schema"@),
{
}

/// A response outside the 2xx range classifies as `RefreshError` carrying
/// the server's message: the `error` field of its payload where there is
/// one, and the payload's `error_description`, where there is one, as the
/// secondary detail.
pub proof fn lemma_refusal_classification(
    resp: HttpResponseModel,
    refresh_token: Seq<char>,
    now: int,
    message: Seq<char>,
) requires
    !(200 <= resp.status < 300),
 ensures
    json_str_field(resp.body, "error"@) == Some(message) ==> classify_response_model(
        Result::Ok(resp),
        refresh_token,
        now,
    ) == RefreshResultModel::RefreshError(message, auth_error_detail(resp.body)),
{
}

/// The model of what the transport handed back.
pub open spec fn transport_outcome_model(resp: Result<HttpResponse, String>) -> Result<
    HttpResponseModel,
    Seq<char>,
> {
    match resp {
        Result::Ok(response) => Result::Ok(response@),
        Result::Err(detail) => Result::Err(detail@),
    }
}

/// Classify what the transport handed back into the outcome of the exchange,
/// exactly as `classify_response_model` says.
pub fn classify_response(resp: Result<HttpResponse, String>, refresh_token: &str, now: i64) -> (r:
    RefreshResult)
    ensures
        r@ == classify_response_model(transport_outcome_model(resp), refresh_token@, now as int),
{
    match resp {
        Result::Err(detail) => RefreshResult::Error(detail),
        Result::Ok(response) => if response.status < 200 || response.status >= 300 {
            let message = match json_string_at(response.body.as_str(), "error") {
                Some(server_message) => server_message,
                None => response.body.clone(),
            };
            let detail = json_string_at(response.body.as_str(), "error_description");
            RefreshResult::RefreshError(message, detail)
        } else {
            match decode_token_body(response.body.as_str()) {
                Some(fields) => RefreshResult::Success(
                    Token {
                        access_token: fields.0,
                        token_type: fields.1,
                        refresh_token: String::from_str(refresh_token),
                        expires_in: None,
                        expires_in_timestamp: Some(sat_add(now, fields.2)),
                    },
                ),
                None => RefreshResult::Error(
                    String::from_str("response body did not match the expected token schema"),
                ),
            }
        },
    }
}

} // verus!
