//! The provider registry: the closed set of OAuth providers, their endpoint
//! defaults and scopes, and the resolution of immutable per-provider
//! configuration from environment-supplied values.

use vstd::prelude::*;
use vstd::string::*;

use crate::error::AppError;
use crate::text::{clone_opt_string, str_contains_char, str_starts_with};

verus! {

/// The identity providers the platform can authenticate against.
#[derive(Debug, Clone, Copy, PartialEq, Eq, Structural)]
pub enum OAuthProvider {
    GitHub,
    GitLab,
    Bitbucket,
}

/// A provider profile normalized to one canonical shape.
#[derive(Debug)]
pub struct OAuthUser {
    pub id: String,
    pub username: String,
    pub email: Option<String>,
    pub avatar_url: Option<String>,
}

impl OAuthProvider {
    /// The lower-case name the provider is stored and reported under.
    pub open spec fn spec_name(&self) -> Seq<char> {
        match self {
            OAuthProvider::GitHub => "github"@,
            OAuthProvider::GitLab => "gitlab"@,
            OAuthProvider::Bitbucket => "bitbucket"@,
        }
    }

    pub open spec fn spec_default_auth_url(&self) -> Seq<char> {
        match self {
            OAuthProvider::GitHub => "https://github.com/login/oauth/authorize"@,
            OAuthProvider::GitLab => "https://gitlab.com/oauth/authorize"@,
            OAuthProvider::Bitbucket => "https://bitbucket.org/site/oauth2/authorize"@,
        }
    }

    pub open spec fn spec_default_token_url(&self) -> Seq<char> {
        match self {
            OAuthProvider::GitHub => "https://github.com/login/oauth/access_token"@,
            OAuthProvider::GitLab => "https://gitlab.com/oauth/token"@,
            OAuthProvider::Bitbucket => "https://bitbucket.org/site/oauth2/access_token"@,
        }
    }

    pub open spec fn spec_default_user_api_url(&self) -> Seq<char> {
        match self {
            OAuthProvider::GitHub => "https://api.github.com/user"@,
            OAuthProvider::GitLab => "https://gitlab.com/api/v4/user"@,
            OAuthProvider::Bitbucket => "https://api.bitbucket.org/2.0/user"@,
        }
    }

    /// The path on this host that the provider redirects back to.
    pub open spec fn spec_callback_path(&self) -> Seq<char> {
        match self {
            OAuthProvider::GitHub => "/api/auth/github/callback"@,
            OAuthProvider::GitLab => "/api/auth/gitlab/callback"@,
            OAuthProvider::Bitbucket => "/api/auth/bitbucket/callback"@,
        }
    }

    /// The scopes requested from each provider.
    pub open spec fn spec_scopes(&self) -> Seq<Seq<char>> {
        match self {
            OAuthProvider::GitHub => seq!["read:user"@, "user:email"@, "repo"@],
            OAuthProvider::GitLab => seq!["read_user"@, "read_repository"@],
            OAuthProvider::Bitbucket => seq!["account"@, "repository"@],
        }
    }

    /// The authorization endpoint: the supplied override when present, the
    /// provider's public endpoint otherwise.
    pub fn get_auth_url(&self, env_value: Option<String>) -> (r: String)
        ensures
            r@ == (match env_value {
                Some(v) => v@,
                None => self.spec_default_auth_url(),
            }),
    {
        match env_value {
            Some(v) => v,
            None => match self {
                OAuthProvider::GitHub => String::from_str(
                    "https://github.com/login/oauth/authorize",
                ),
                OAuthProvider::GitLab => String::from_str("https://gitlab.com/oauth/authorize"),
                OAuthProvider::Bitbucket => String::from_str(
                    "https://bitbucket.org/site/oauth2/authorize",
                ),
            },
        }
    }

    /// The token endpoint: the supplied override when present, the provider's
    /// public endpoint otherwise.
    pub fn get_token_url(&self, env_value: Option<String>) -> (r: String)
        ensures
            r@ == (match env_value {
                Some(v) => v@,
                None => self.spec_default_token_url(),
            }),
    {
        match env_value {
            Some(v) => v,
            None => match self {
                OAuthProvider::GitHub => String::from_str(
                    "https://github.com/login/oauth/access_token",
                ),
                OAuthProvider::GitLab => String::from_str("https://gitlab.com/oauth/token"),
                OAuthProvider::Bitbucket => String::from_str(
                    "https://bitbucket.org/site/oauth2/access_token",
                ),
            },
        }
    }

    /// The user-profile endpoint: the supplied override when present, the
    /// provider's public endpoint otherwise.
    pub fn get_user_api_url(&self, env_value: Option<String>) -> (r: String)
        ensures
            r@ == (match env_value {
                Some(v) => v@,
                None => self.spec_default_user_api_url(),
            }),
    {
        match env_value {
            Some(v) => v,
            None => match self {
                OAuthProvider::GitHub => String::from_str("https://api.github.com/user"),
                OAuthProvider::GitLab => String::from_str("https://gitlab.com/api/v4/user"),
                OAuthProvider::Bitbucket => String::from_str("https://api.bitbucket.org/2.0/user"),
            },
        }
    }

    pub fn get_scopes(&self) -> (r: Vec<String>)
        ensures
            r.deep_view() == self.spec_scopes(),
    {
        let mut v: Vec<String> = Vec::new();
        match self {
            OAuthProvider::GitHub => {
                v.push(String::from_str("read:user"));
                v.push(String::from_str("user:email"));
                v.push(String::from_str("repo"));
            },
            OAuthProvider::GitLab => {
                v.push(String::from_str("read_user"));
                v.push(String::from_str("read_repository"));
            },
            OAuthProvider::Bitbucket => {
                v.push(String::from_str("account"));
                v.push(String::from_str("repository"));
            },
        }
        proof {
            assert(v.deep_view() =~~= self.spec_scopes());
        }
        v
    }

    /// The provider's name, as stored in user rows and sessions.
    pub fn to_string(&self) -> (r: String)
        ensures
            r@ == self.spec_name(),
    {
        match self {
            OAuthProvider::GitHub => String::from_str("github"),
            OAuthProvider::GitLab => String::from_str("gitlab"),
            OAuthProvider::Bitbucket => String::from_str("bitbucket"),
        }
    }

    fn callback_path(&self) -> (r: &'static str)
        ensures
            r@ == self.spec_callback_path(),
    {
        match self {
            OAuthProvider::GitHub => "/api/auth/github/callback",
            OAuthProvider::GitLab => "/api/auth/gitlab/callback",
            OAuthProvider::Bitbucket => "/api/auth/bitbucket/callback",
        }
    }
}

/// The environment-supplied values a provider's configuration is resolved
/// from; every field is optional and read at the edge of the system.
pub struct ProviderEnv {
    pub auth_url: Option<String>,
    pub token_url: Option<String>,
    pub api_url: Option<String>,
    pub client_id: Option<String>,
    pub client_secret: Option<String>,
    pub host: Option<String>,
    pub port: Option<String>,
}

impl ProviderEnv {
    /// An environment with nothing set: every endpoint falls back to its
    /// default and resolution fails for want of credentials.
    pub fn empty() -> (r: ProviderEnv)
        ensures
            r.auth_url is None,
            r.token_url is None,
            r.api_url is None,
            r.client_id is None,
            r.client_secret is None,
            r.host is None,
            r.port is None,
    {
        ProviderEnv {
            auth_url: None,
            token_url: None,
            api_url: None,
            client_id: None,
            client_secret: None,
            host: None,
            port: None,
        }
    }
}

/// A URL this flow accepts as an absolute endpoint: an `http` or `https`
/// scheme, at least one character after it, and no fragment.
pub open spec fn is_simple_abs_url(s: Seq<char>) -> bool {
    (("http://"@.is_prefix_of(s) && s.len() > "http://"@.len()) || ("https://"@.is_prefix_of(s)
        && s.len() > "https://"@.len())) && !s.contains('#')
}

/// Runtime check for [`is_simple_abs_url`].
pub fn check_simple_abs_url(s: &str) -> (r: bool)
    ensures
        r == is_simple_abs_url(s@),
{
    proof {
        reveal_strlit("http://");
        reveal_strlit("https://");
    }
    let plain = str_starts_with(s, "http://") && s.unicode_len() > 7;
    let tls = str_starts_with(s, "https://") && s.unicode_len() > 8;
    (plain || tls) && !str_contains_char(s, '#')
}

/// The base URL of this service, built from the configured host and port.
pub open spec fn spec_base_url(host: Option<String>, port: Option<String>) -> Seq<char> {
    "http://"@ + (match host {
        Some(h) => h@,
        None => "127.0.0.1"@,
    }) + ":"@ + (match port {
        Some(p) => p@,
        None => "3000"@,
    })
}

pub fn get_base_url(host: Option<String>, port: Option<String>) -> (r: String)
    ensures
        r@ == spec_base_url(host, port),
{
    let h = match host {
        Some(h) => h,
        None => String::from_str("127.0.0.1"),
    };
    let p = match port {
        Some(p) => p,
        None => String::from_str("3000"),
    };
    let r = String::from_str("http://").concat(h.as_str()).concat(":").concat(p.as_str());
    proof {
        reveal_strlit(":");
    }
    r
}

/// The URL the browser is sent back to after login or denial.
pub fn get_frontend_url(env_value: Option<String>) -> (r: String)
    ensures
        r@ == (match env_value {
            Some(v) => v@,
            None => "http://127.0.0.1:8080"@,
        }),
{
    match env_value {
        Some(v) => v,
        None => String::from_str("http://127.0.0.1:8080"),
    }
}

/// The immutable configuration one provider's flow runs against, resolved
/// once per request and never mutated.
#[derive(Debug)]
pub struct ProviderConfig {
    pub provider: OAuthProvider,
    pub auth_url: String,
    pub token_url: String,
    pub user_api_url: String,
    pub client_id: String,
    pub client_secret: String,
    pub redirect_url: String,
    pub scopes: Vec<String>,
}

impl ProviderConfig {
    /// Well-formedness: endpoints are acceptable absolute URLs, credentials
    /// are present, and the scope list is the provider's own.
    pub open spec fn wf(&self) -> bool {
        &&& is_simple_abs_url(self.auth_url@)
        &&& is_simple_abs_url(self.token_url@)
        &&& is_simple_abs_url(self.user_api_url@)
        &&& is_simple_abs_url(self.redirect_url@)
        &&& self.client_id@.len() > 0
        &&& self.client_secret@.len() > 0
        &&& self.scopes.deep_view() == self.provider.spec_scopes()
    }
}

/// The endpoint each resolved field must equal, given the environment.
pub open spec fn spec_resolved_auth_url(p: OAuthProvider, env: ProviderEnv) -> Seq<char> {
    match env.auth_url {
        Some(v) => v@,
        None => p.spec_default_auth_url(),
    }
}

pub open spec fn spec_resolved_token_url(p: OAuthProvider, env: ProviderEnv) -> Seq<char> {
    match env.token_url {
        Some(v) => v@,
        None => p.spec_default_token_url(),
    }
}

pub open spec fn spec_resolved_user_api_url(p: OAuthProvider, env: ProviderEnv) -> Seq<char> {
    match env.api_url {
        Some(v) => v@,
        None => p.spec_default_user_api_url(),
    }
}

pub open spec fn spec_redirect_url(p: OAuthProvider, env: ProviderEnv) -> Seq<char> {
    spec_base_url(env.host, env.port) + p.spec_callback_path()
}

/// Exactly the environments a provider's configuration resolves from:
/// credentials present and non-empty, and every endpoint acceptable.
pub open spec fn config_inputs_ok(p: OAuthProvider, env: ProviderEnv) -> bool {
    &&& env.client_id matches Some(c) && c@.len() > 0
    &&& env.client_secret matches Some(c) && c@.len() > 0
    &&& is_simple_abs_url(spec_resolved_auth_url(p, env))
    &&& is_simple_abs_url(spec_resolved_token_url(p, env))
    &&& is_simple_abs_url(spec_resolved_user_api_url(p, env))
    &&& is_simple_abs_url(spec_redirect_url(p, env))
}

/// Resolve the configuration of `provider` from the environment.
///
/// Fails with `ConfigurationError` exactly when a credential is absent or
/// empty, or an endpoint is not an acceptable absolute URL.
pub fn create_oauth_client(provider: &OAuthProvider, env: &ProviderEnv) -> (r: Result<
    ProviderConfig,
    AppError,
>)
    ensures
        r is Ok <==> config_inputs_ok(*provider, *env),
        r matches Ok(cfg) ==> {
            &&& cfg.wf()
            &&& cfg.provider == *provider
            &&& cfg.auth_url@ == spec_resolved_auth_url(*provider, *env)
            &&& cfg.token_url@ == spec_resolved_token_url(*provider, *env)
            &&& cfg.user_api_url@ == spec_resolved_user_api_url(*provider, *env)
            &&& cfg.client_id@ == env.client_id.unwrap()@
            &&& cfg.client_secret@ == env.client_secret.unwrap()@
            &&& cfg.redirect_url@ == spec_redirect_url(*provider, *env)
            &&& cfg.scopes.deep_view() == provider.spec_scopes()
        },
        r matches Err(e) ==> e is ConfigurationError,
{
    let client_id = match clone_opt_string(&env.client_id) {
        Some(c) => c,
        None => {
            return Err(
                AppError::ConfigurationError(String::from_str("missing client id")),
            );
        },
    };
    let client_secret = match clone_opt_string(&env.client_secret) {
        Some(c) => c,
        None => {
            return Err(
                AppError::ConfigurationError(String::from_str("missing client secret")),
            );
        },
    };
    if client_id.as_str().is_empty() {
        return Err(AppError::ConfigurationError(String::from_str("missing client id")));
    }
    if client_secret.as_str().is_empty() {
        return Err(AppError::ConfigurationError(String::from_str("missing client secret")));
    }
    let auth_url = provider.get_auth_url(clone_opt_string(&env.auth_url));
    let token_url = provider.get_token_url(clone_opt_string(&env.token_url));
    let user_api_url = provider.get_user_api_url(clone_opt_string(&env.api_url));
    let base_url = get_base_url(clone_opt_string(&env.host), clone_opt_string(&env.port));
    let redirect_url = base_url.concat(provider.callback_path());
    if !check_simple_abs_url(auth_url.as_str()) {
        return Err(AppError::ConfigurationError(String::from_str("invalid authorization URL")));
    }
    if !check_simple_abs_url(token_url.as_str()) {
        return Err(AppError::ConfigurationError(String::from_str("invalid token URL")));
    }
    if !check_simple_abs_url(user_api_url.as_str()) {
        return Err(AppError::ConfigurationError(String::from_str("invalid user API URL")));
    }
    if !check_simple_abs_url(redirect_url.as_str()) {
        return Err(AppError::ConfigurationError(String::from_str("invalid redirect URL")));
    }
    Ok(
        ProviderConfig {
            provider: *provider,
            auth_url,
            token_url,
            user_api_url,
            client_id,
            client_secret,
            redirect_url,
            scopes: provider.get_scopes(),
        },
    )
}

/// Resolve the GitHub configuration from the environment.
pub fn github_oauth_client(env: &ProviderEnv) -> (r: Result<ProviderConfig, AppError>)
    ensures
        r is Ok <==> config_inputs_ok(OAuthProvider::GitHub, *env),
        r matches Ok(cfg) ==> cfg.wf() && cfg.provider == OAuthProvider::GitHub,
        r matches Err(e) ==> e is ConfigurationError,
{
    create_oauth_client(&OAuthProvider::GitHub, env)
}

/// Resolve the GitLab configuration from the environment.
pub fn gitlab_oauth_client(env: &ProviderEnv) -> (r: Result<ProviderConfig, AppError>)
    ensures
        r is Ok <==> config_inputs_ok(OAuthProvider::GitLab, *env),
        r matches Ok(cfg) ==> cfg.wf() && cfg.provider == OAuthProvider::GitLab,
        r matches Err(e) ==> e is ConfigurationError,
{
    create_oauth_client(&OAuthProvider::GitLab, env)
}

/// Resolve the Bitbucket configuration from the environment.
pub fn bitbucket_oauth_client(env: &ProviderEnv) -> (r: Result<ProviderConfig, AppError>)
    ensures
        r is Ok <==> config_inputs_ok(OAuthProvider::Bitbucket, *env),
        r matches Ok(cfg) ==> cfg.wf() && cfg.provider == OAuthProvider::Bitbucket,
        r matches Err(e) ==> e is ConfigurationError,
{
    create_oauth_client(&OAuthProvider::Bitbucket, env)
}

} // verus!
