//! The OAuth client: building the authorization redirect URL with its
//! anti-forgery state token, and judging the token endpoint's answer to the
//! authorization-code exchange.

use vstd::prelude::*;
use vstd::string::*;

use crate::config::{OAuthProvider, ProviderConfig};
use crate::error::AppError;
use crate::profile::{json_str_field, json_str_paths};
use crate::text::{
    clone_opt_string, dec_rep, join_spaced, join_with_spaces, lemma_join_spaced_len,
    lemma_percent_encoded_len, percent_encoded, str_contains_char, u64_to_string, url_encode,
};

verus! {

/// What one HTTP call against a provider endpoint was observed to do: an
/// answer with its status and body text, or no answer at all.
pub enum HttpOutcome {
    Response(u16, String),
    Transport(String),
}

/// The token material a successful code exchange yields. The tokens are
/// secrets: they live for the duration of the callback and inside the session,
/// and are never rendered in full anywhere else.
#[derive(Debug)]
pub struct OAuthToken {
    pub access_token: String,
    pub refresh_token: Option<String>,
    pub token_type: String,
    pub scope: Option<String>,
}

impl Clone for OAuthToken {
    fn clone(&self) -> (r: Self)
        ensures
            r == *self,
    {
        OAuthToken {
            access_token: self.access_token.clone(),
            refresh_token: clone_opt_string(&self.refresh_token),
            token_type: self.token_type.clone(),
            scope: clone_opt_string(&self.scope),
        }
    }
}

/// Characters a state token is made of: the base64url alphabet.
pub open spec fn is_state_char(c: char) -> bool {
    ('a' <= c && c <= 'z') || ('A' <= c && c <= 'Z') || ('0' <= c && c <= '9') || c == '-' || c
        == '_'
}

/// Relies on oauth2::CsrfToken::new_random: a fresh random 128-bit token,
/// base64url-encoded without padding — 22 characters of the base64url
/// alphabet, drawn anew on every call.
#[verifier::external_body]
pub(crate) fn generate_state_token() -> (r: String)
    ensures
        r@.len() == 22,
        forall|i: int| 0 <= i < r@.len() ==> is_state_char(#[trigger] r@[i]),
{
    oauth2::CsrfToken::new_random().secret().clone()
}

/// The encoded scope parameter value requested from provider `p`.
pub open spec fn spec_scope_value(p: OAuthProvider) -> Seq<char> {
    percent_encoded(join_spaced(p.spec_scopes()))
}

/// The authorization redirect URL: the configured endpoint with the
/// authorization-code query appended — client id, redirect URI, the space-
/// joined scope list and the state token, each percent-encoded.
pub open spec fn spec_authorization_url(cfg: ProviderConfig, state: Seq<char>) -> Seq<char> {
    cfg.auth_url@ + (if cfg.auth_url@.contains('?') {
        "&"@
    } else {
        "?"@
    }) + "response_type=code&client_id="@ + percent_encoded(cfg.client_id@) + "&redirect_uri="@
        + percent_encoded(cfg.redirect_url@) + "&scope="@ + spec_scope_value(cfg.provider)
        + "&state="@ + percent_encoded(state)
}

/// Build the authorization redirect URL for `cfg` around the given state token.
pub fn build_authorization_url(cfg: &ProviderConfig, state: &str) -> (r: String)
    requires
        cfg.wf(),
    ensures
        r@ == spec_authorization_url(*cfg, state@),
{
    let mut url = cfg.auth_url.clone();
    if str_contains_char(cfg.auth_url.as_str(), '?') {
        url.append("&");
    } else {
        url.append("?");
    }
    url.append("response_type=code&client_id=");
    url.append(url_encode(cfg.client_id.as_str()).as_str());
    url.append("&redirect_uri=");
    url.append(url_encode(cfg.redirect_url.as_str()).as_str());
    url.append("&scope=");
    let joined = join_with_spaces(&cfg.scopes);
    url.append(url_encode(joined.as_str()).as_str());
    url.append("&state=");
    url.append(url_encode(state).as_str());
    proof {
        assert(url@ =~= spec_authorization_url(*cfg, state@));
    }
    url
}

/// Law: the authorization URL begins with the configured authorization
/// endpoint — so its host is that endpoint's — and its scope parameter value
/// is never empty.
pub proof fn lemma_begin_url_shape(cfg: ProviderConfig, state: Seq<char>)
    requires
        cfg.wf(),
    ensures
        spec_authorization_url(cfg, state).take(cfg.auth_url@.len() as int) == cfg.auth_url@,
        spec_scope_value(cfg.provider).len() > 0,
{
    assert(spec_authorization_url(cfg, state).take(cfg.auth_url@.len() as int) =~= cfg.auth_url@);
    let scopes = cfg.provider.spec_scopes();
    match cfg.provider {
        OAuthProvider::GitHub => {
            reveal_strlit("read:user");
            assert(scopes[0].len() > 0);
        },
        OAuthProvider::GitLab => {
            reveal_strlit("read_user");
            assert(scopes[0].len() > 0);
        },
        OAuthProvider::Bitbucket => {
            reveal_strlit("account");
            assert(scopes[0].len() > 0);
        },
    }
    lemma_join_spaced_len(scopes);
    lemma_percent_encoded_len(join_spaced(scopes));
}

/// An observed exchange answer that counts as success: a 2xx response whose
/// body carries an `access_token` string field.
pub open spec fn spec_exchange_ok(x: HttpOutcome) -> bool {
    x matches HttpOutcome::Response(status, body) && 200 <= status < 300 && json_str_paths(
        body@,
    ).contains_key(seq!["access_token"@])
}

/// The error detail reported for a failed exchange.
pub open spec fn spec_exchange_err_msg(x: HttpOutcome) -> Seq<char> {
    match x {
        HttpOutcome::Transport(d) => "Failed to exchange code: "@ + d@,
        HttpOutcome::Response(status, body) => if !(200 <= status < 300) {
            "Failed to exchange code: status "@ + dec_rep(status as nat)
        } else {
            "Failed to exchange code: malformed token response"@
        },
    }
}

/// The token a successful exchange answer denotes, field for field.
pub open spec fn token_matches_exchange(t: OAuthToken, x: HttpOutcome) -> bool {
    x matches HttpOutcome::Response(_, body) && {
        &&& t.access_token@ == json_str_paths(body@)[seq!["access_token"@]]
        &&& (if json_str_paths(body@).contains_key(seq!["refresh_token"@]) {
            t.refresh_token matches Some(rt) && rt@ == json_str_paths(body@)[seq![
                "refresh_token"@,
            ]]
        } else {
            t.refresh_token is None
        })
        &&& t.token_type@ == (if json_str_paths(body@).contains_key(seq!["token_type"@]) {
            json_str_paths(body@)[seq!["token_type"@]]
        } else {
            Seq::<char>::empty()
        })
        &&& (if json_str_paths(body@).contains_key(seq!["scope"@]) {
            t.scope matches Some(s) && s@ == json_str_paths(body@)[seq!["scope"@]]
        } else {
            t.scope is None
        })
    }
}

/// Judge the token endpoint's answer to the code exchange.
///
/// Fails with `AuthError` exactly when no answer came, the answer was not 2xx,
/// or a 2xx body carries no `access_token`; otherwise the token material.
pub fn parse_token_response(x: &HttpOutcome) -> (r: Result<OAuthToken, AppError>)
    ensures
        r is Ok <==> spec_exchange_ok(*x),
        r matches Ok(t) ==> token_matches_exchange(t, *x),
        r matches Err(e) ==> e matches AppError::AuthError(m) && m@ == spec_exchange_err_msg(*x),
{
    let body: &String = match x {
        HttpOutcome::Transport(d) => {
            return Err(
                AppError::AuthError(
                    String::from_str("Failed to exchange code: ").concat(d.as_str()),
                ),
            );
        },
        HttpOutcome::Response(status, body) => {
            if *status < 200 || *status >= 300 {
                let msg = String::from_str("Failed to exchange code: status ").concat(
                    u64_to_string(*status as u64).as_str(),
                );
                return Err(AppError::AuthError(msg));
            }
            body
        },
    };
    let access_token = match json_str_field(body.as_str(), "access_token") {
        Some(t) => t,
        None => {
            return Err(
                AppError::AuthError(
                    String::from_str("Failed to exchange code: malformed token response"),
                ),
            );
        },
    };
    let token_type = match json_str_field(body.as_str(), "token_type") {
        Some(t) => t,
        None => String::new(),
    };
    Ok(
        OAuthToken {
            access_token,
            refresh_token: json_str_field(body.as_str(), "refresh_token"),
            token_type,
            scope: json_str_field(body.as_str(), "scope"),
        },
    )
}

} // verus!
