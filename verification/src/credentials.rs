//! The application credentials a refresh exchange is made with.

use vstd::prelude::*;

verus! {

/// The credentials issued to the application when it was registered with the
/// authorization server: a client identifier, the matching secret, and the
/// URL of the token endpoint that refresh requests are sent to.
pub struct ApplicationSecret {
    pub client_id: String,
    pub client_secret: String,
    pub token_uri: String,
}

impl ApplicationSecret {
    /// All three fields are required: a well-formed secret has none of them
    /// empty.
    pub open spec fn wf(&self) -> bool {
        self.client_id@.len() > 0 && self.client_secret@.len() > 0 && self.token_uri@.len() > 0
    }
}

} // verus!
