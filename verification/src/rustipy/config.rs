use vstd::prelude::*;

verus! {

/// The application's registration: its client id and redirect URI.
#[derive(Debug, Clone)]
pub struct AuthConfig {
    pub client_id: String,
    pub redirect_uri: String,
}

} // verus!
