//! OAuth2 refresh-token exchange: build the form-encoded token-refresh
//! request, send it through an injected HTTP capability, and classify the
//! outcome as a new token, a transport failure, or a server refusal.

pub mod clock;
pub mod credentials;
pub mod encode;
pub mod refresh;
pub mod response;
pub mod token;

pub use credentials::ApplicationSecret;
pub use encode::build_refresh_body;
pub use refresh::{HttpPostForm, RefreshFlow};
pub use response::{classify_response, HttpResponse, RefreshResult};
pub use token::Token;
