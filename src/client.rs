//! Client configuration.
use vstd::prelude::*;
use vstd::string::StringExecFns;

use crate::auth::DomoClientAppCredentials;

verus! {

/// The configuration of an API client: where the API is, and either an
/// access token or the credentials to fetch one.
#[derive(Clone, Debug)]
pub struct RustyPitchfork {
    pub base_uri: String,
    pub access_token: Option<String>,
    pub auth_manager: Option<DomoClientAppCredentials>,
}

impl RustyPitchfork {
    /// The public API address, with neither token nor credentials yet.
    pub fn default() -> (r: RustyPitchfork)
        ensures
            r.base_uri@ == "https://api.domo.com/"@,
            r.access_token is None,
            r.auth_manager is None,
    {
        RustyPitchfork {
            base_uri: String::from_str("https://api.domo.com/"),
            access_token: None,
            auth_manager: None,
        }
    }

    pub fn base_uri(self, base_uri: &str) -> (r: RustyPitchfork)
        ensures
            r.base_uri@ == base_uri@,
            r.access_token == self.access_token,
            r.auth_manager == self.auth_manager,
    {
        RustyPitchfork { base_uri: String::from_str(base_uri), ..self }
    }

    pub fn access_token(self, access_token: &str) -> (r: RustyPitchfork)
        ensures
            r.base_uri == self.base_uri,
            r.access_token is Some,
            r.access_token.unwrap()@ == access_token@,
            r.auth_manager == self.auth_manager,
    {
        RustyPitchfork { access_token: Some(String::from_str(access_token)), ..self }
    }

    pub fn auth_manager(self, auth_manager: DomoClientAppCredentials) -> (r: RustyPitchfork)
        ensures
            r == (RustyPitchfork { auth_manager: Some(auth_manager), ..self }),
    {
        RustyPitchfork { auth_manager: Some(auth_manager), ..self }
    }

    /// The finished configuration; it needs a token or credentials.
    pub fn build(self) -> (r: RustyPitchfork)
        requires
            self.access_token is Some || self.auth_manager is Some,
        ensures
            r == self,
    {
        self
    }
}

/// A client that calls the API with a fixed access token.
#[derive(Clone, Debug)]
pub struct DomoPitchfork {
    pub auth: String,
}

impl DomoPitchfork {
    pub fn with_token(token: &str) -> (r: DomoPitchfork)
        ensures
            r.auth@ == token@,
    {
        DomoPitchfork { auth: String::from_str(token) }
    }
}

} // verus!
