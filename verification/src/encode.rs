//! Construction of the form-url-encoded token-refresh request body.

use vstd::prelude::*;

use crate::credentials::ApplicationSecret;

verus! {

/// The `application/x-www-form-urlencoded` image of a string: alphanumerics
/// and `*-._` pass through, a space becomes `+`, every other byte of the
/// UTF-8 form is percent-encoded. A function of the input alone; left
/// uninterpreted, since spelling the byte-level encoding out here would state
/// nothing that could be held against the encoder actually called.
pub uninterp spec fn urlencoded(s: Seq<char>) -> Seq<char>;

/// Relies on url::form_urlencoded::byte_serialize: the form-url-encoded
/// image of the input's UTF-8 bytes, a function of the input alone.
#[verifier::external_body]
fn urlencode(s: &str) -> (r: String)
    ensures
        r@ == urlencoded(s@),
{
    url::form_urlencoded::byte_serialize(s.as_bytes()).collect()
}

/// The exact request body of a refresh exchange: the four fields
/// `client_id`, `client_secret`, `refresh_token` and
/// `grant_type=refresh_token`, each value form-url-encoded, joined by `&` in
/// that fixed order.
pub open spec fn refresh_request_body(
    client_id: Seq<char>,
    client_secret: Seq<char>,
    refresh_token: Seq<char>,
) -> Seq<char> {
    "client_id="@ + urlencoded(client_id) + "&client_secret="@ + urlencoded(client_secret)
        + "&refresh_token="@ + urlencoded(refresh_token) + "&grant_type=refresh_token"@
}

/// Build the form-url-encoded body that the refresh exchange posts to the
/// token endpoint.
pub fn build_refresh_body(secret: &ApplicationSecret, refresh_token: &str) -> (r: String)
    ensures
        r@ == refresh_request_body(secret.client_id@, secret.client_secret@, refresh_token@),
{
    let encoded_id = urlencode(secret.client_id.as_str());
    let encoded_secret = urlencode(secret.client_secret.as_str());
    let encoded_refresh = urlencode(refresh_token);
    let mut body = String::from_str("client_id=");
    body.append(encoded_id.as_str());
    body.append("&client_secret=");
    body.append(encoded_secret.as_str());
    body.append("&refresh_token=");
    body.append(encoded_refresh.as_str());
    body.append("&grant_type=refresh_token");
    proof {
        assert(body@ =~= refresh_request_body(
            secret.client_id@,
            secret.client_secret@,
            refresh_token@,
        ));
    }
    body
}

} // verus!
