//! The refresh exchange itself: one POST to the token endpoint per call,
//! classified, with a successful outcome cached for good.

use vstd::prelude::*;

use crate::clock;
use crate::credentials::ApplicationSecret;
use crate::encode::build_refresh_body;
use crate::response::{
    classify_response, classify_response_model, transport_outcome_model, HttpResponse,
    HttpResponseModel, RefreshResult, RefreshResultModel,
};

verus! {

/// The HTTP capability a `RefreshFlow` is given: send a form-encoded POST,
/// hand back the response's status and body, or the transport failure's
/// detail. Implementations own connection setup, TLS and redirects; nothing
/// is assumed of what they return.
pub trait HttpPostForm {
    /// POST `body` to `uri` with content type
    /// `application/x-www-form-urlencoded`.
    fn post_form(&mut self, uri: &str, body: &str) -> Result<HttpResponse, String>;
}

/// Refresh an expired access token, as obtained by any other authentication
/// flow: build the form-encoded refresh request, send it through the
/// injected HTTP capability, classify the answer, and remember the outcome.
/// Once an instance has produced a `Success` it returns that cached outcome
/// and never issues another request.
pub struct RefreshFlow<C: HttpPostForm> {
    client: C,
    result: RefreshResult,
}

impl<C: HttpPostForm> RefreshFlow<C> {
    /// The last computed outcome this flow holds.
    pub closed spec fn cached(&self) -> RefreshResultModel {
        self.result@
    }

    /// A fresh flow around the given HTTP capability; it holds a retryable
    /// placeholder outcome until the first exchange runs.
    pub fn new(client: C) -> (r: RefreshFlow<C>)
        ensures
            r.cached() == RefreshResultModel::Error("no refresh attempted yet"@),
    {
        RefreshFlow {
            client,
            result: RefreshResult::Error(String::from_str("no refresh attempted yet")),
        }
    }

    /// Attempt to refresh the given token, and obtain a new, valid one.
    ///
    /// If the flow already holds a cached `Success`, that outcome is
    /// returned unchanged and no request is issued. Otherwise one POST is
    /// made to `secret.token_uri` with the four-field form-encoded body of
    /// `refresh_request_body`, and whatever the transport and the clock
    /// handed back is classified exactly as `classify_response_model` says:
    /// the refresh token is carried into a successful outcome unchanged,
    /// and its expiry is the answer's instant plus the server-reported
    /// lifetime.
    ///
    /// On `RefreshResult::Error` the caller may retry at an interval of its
    /// choosing; on `RefreshResult::RefreshError` the refresh token is no
    /// longer good and a full re-authorization is needed.
    pub fn refresh_token(&mut self, secret: &ApplicationSecret, refresh_token: &str) -> (r:
        &RefreshResult)
        requires
            secret.wf(),
        ensures
            r@ == final(self).cached(),
            old(self).cached() is Success ==> final(self).cached() == old(self).cached(),
            !(old(self).cached() is Success) ==> exists|
                resp: Result<HttpResponseModel, Seq<char>>,
                now: int,
            | final(self).cached() == classify_response_model(resp, refresh_token@, now),
            !(old(self).cached() is Success) ==> (final(self).cached()
                matches RefreshResultModel::Success(t) ==> t.refresh_token == refresh_token@
                && t.expires_in is None),
    {
        match &self.result {
            RefreshResult::Success(_) => {
                return &self.result;
            },
            _ => {},
        }
        let body = build_refresh_body(secret, refresh_token);
        let resp = self.client.post_form(secret.token_uri.as_str(), body.as_str());
        let ghost resp_model = transport_outcome_model(resp);
        let now = clock::now_epoch_seconds();
        let outcome = classify_response(resp, refresh_token, now);
        self.result = outcome;
        proof {
            assert(self.cached() == classify_response_model(
                resp_model,
                refresh_token@,
                now as int,
            ));
        }
        &self.result
    }
}

} // verus!
