//! The OAuth configuration: client credentials, redirect URI and the fixed
//! set of scopes the gateway asks for. Built once at process start and
//! read-only afterwards.

use vstd::prelude::*;

verus! {

/// Failure to assemble the configuration: a credential is absent from the
/// environment.
#[derive(Clone, Copy, Debug, PartialEq, Eq, Structural)]
pub enum ConfigError {
    MissingCredentials,
}

/// Immutable OAuth configuration, consistent for the process lifetime.
pub struct OAuthConfig {
    pub client_id: String,
    pub client_secret: String,
    pub redirect_uri: String,
    pub scopes: Vec<String>,
}

/// The redirect URI the gateway registers with the provider.
pub open spec fn spec_redirect_uri() -> Seq<char> {
    "http://localhost:8000/redirect"@
}

/// The five scopes every authorization request must carry.
pub open spec fn spec_required_scopes() -> Seq<Seq<char>> {
    seq![
        "app-remote-control"@,
        "streaming"@,
        "user-read-playback-state"@,
        "user-modify-playback-state"@,
        "user-read-currently-playing"@,
    ]
}

impl OAuthConfig {
    /// A well-formed configuration points at the registered redirect URI and
    /// carries exactly the required scopes, in order.
    pub open spec fn wf(self) -> bool {
        &&& self.redirect_uri@ == spec_redirect_uri()
        &&& self.scopes.deep_view() == spec_required_scopes()
    }

    /// Builds the configuration from the credentials read out of the
    /// environment; fails exactly when one of them is absent.
    pub fn from_credentials(client_id: Option<String>, client_secret: Option<String>) -> (r: Result<
        OAuthConfig,
        ConfigError,
    >)
        ensures
            (r is Ok) <==> (client_id is Some && client_secret is Some),
            r matches Ok(c) ==> {
                &&& c.wf()
                &&& c.client_id == client_id->Some_0
                &&& c.client_secret == client_secret->Some_0
            },
            r is Err ==> r == Err::<OAuthConfig, ConfigError>(ConfigError::MissingCredentials),
    {
        match (client_id, client_secret) {
            (Some(id), Some(secret)) => {
                let mut scopes: Vec<String> = Vec::new();
                scopes.push(String::from_str("app-remote-control"));
                scopes.push(String::from_str("streaming"));
                scopes.push(String::from_str("user-read-playback-state"));
                scopes.push(String::from_str("user-modify-playback-state"));
                scopes.push(String::from_str("user-read-currently-playing"));
                let cfg = OAuthConfig {
                    client_id: id,
                    client_secret: secret,
                    redirect_uri: String::from_str("http://localhost:8000/redirect"),
                    scopes,
                };
                proof {
                    assert(cfg.scopes.deep_view() =~= spec_required_scopes());
                }
                Ok(cfg)
            },
            _ => Err(ConfigError::MissingCredentials),
        }
    }
}

} // verus!
