//! The profile fetcher's normalization: each provider's user-info document,
//! already fetched as text, is reduced to the canonical profile shape.
//!
//! Parsing the document is serde_json's work and stays behind trusted
//! projections; which fields make up the canonical profile for which provider
//! is this module's verified logic.

use vstd::prelude::*;
use vstd::string::*;

use crate::config::{OAuthProvider, OAuthUser};
use crate::error::AppError;
use crate::text::{i64_to_string, int_rep};

verus! {

/// The string-valued fields of the JSON document `s`, keyed by the path of
/// object keys leading to each; empty wherever `s` does not parse.
///
/// Relies on serde_json::from_str with Value::get and Value::as_str: the value
/// is a function of the document text alone.
pub uninterp spec fn json_str_paths(s: Seq<char>) -> Map<Seq<Seq<char>>, Seq<char>>;

/// The number-valued fields of the JSON document `s` that are representable as
/// `i64`, keyed like [`json_str_paths`]; empty wherever `s` does not parse.
///
/// Relies on serde_json::from_str with Value::get and Value::as_i64: the value
/// is a function of the document text alone.
pub uninterp spec fn json_i64_paths(s: Seq<char>) -> Map<Seq<Seq<char>>, i64>;

/// Relies on serde_json::from_str, Value::get and Value::as_str: the string
/// field under the top-level key `key`, when `body` parses and carries one.
#[verifier::external_body]
pub(crate) fn json_str_field(body: &str, key: &str) -> (r: Option<String>)
    ensures
        r is Some <==> json_str_paths(body@).contains_key(seq![key@]),
        r matches Some(v) ==> v@ == json_str_paths(body@)[seq![key@]],
{
    let doc: serde_json::Value = match serde_json::from_str(body) {
        Ok(v) => v,
        Err(_) => return None,
    };
    doc.get(key).and_then(|f| f.as_str()).map(|s| s.to_string())
}

/// Relies on serde_json::from_str, Value::get and Value::as_i64: the integer
/// field under the top-level key `key`, when `body` parses and carries one
/// that fits an `i64`.
#[verifier::external_body]
fn json_i64_field(body: &str, key: &str) -> (r: Option<i64>)
    ensures
        r is Some <==> json_i64_paths(body@).contains_key(seq![key@]),
        r matches Some(v) ==> v == json_i64_paths(body@)[seq![key@]],
{
    let doc: serde_json::Value = match serde_json::from_str(body) {
        Ok(v) => v,
        Err(_) => return None,
    };
    doc.get(key).and_then(|f| f.as_i64())
}

/// Relies on serde_json::from_str, Value::get and Value::as_str: the string
/// field under the nested keys `k1.k2.k3`, when `body` parses and carries one.
#[verifier::external_body]
fn json_str_field_at(body: &str, k1: &str, k2: &str, k3: &str) -> (r: Option<String>)
    ensures
        r is Some <==> json_str_paths(body@).contains_key(seq![k1@, k2@, k3@]),
        r matches Some(v) ==> v@ == json_str_paths(body@)[seq![k1@, k2@, k3@]],
{
    let doc: serde_json::Value = match serde_json::from_str(body) {
        Ok(v) => v,
        Err(_) => return None,
    };
    doc.get(k1).and_then(|f| f.get(k2)).and_then(|f| f.get(k3)).and_then(|f| f.as_str()).map(
        |s| s.to_string(),
    )
}

/// The canonical external id the provider's document carries, if any: GitHub
/// and GitLab assign numeric ids under `id`, rendered in decimal; Bitbucket
/// assigns a UUID-like string under `uuid`.
pub open spec fn spec_profile_id(p: OAuthProvider, body: Seq<char>) -> Option<Seq<char>> {
    match p {
        OAuthProvider::GitHub => spec_numeric_id(body),
        OAuthProvider::GitLab => spec_numeric_id(body),
        OAuthProvider::Bitbucket => if json_str_paths(body).contains_key(seq!["uuid"@]) {
            Some(json_str_paths(body)[seq!["uuid"@]])
        } else {
            None
        },
    }
}

pub open spec fn spec_numeric_id(body: Seq<char>) -> Option<Seq<char>> {
    if json_i64_paths(body).contains_key(seq!["id"@]) {
        Some(int_rep(json_i64_paths(body)[seq!["id"@]] as int))
    } else {
        None
    }
}

/// The username field per provider (`login` on GitHub, `username` elsewhere),
/// defaulting to the empty string when absent.
pub open spec fn spec_profile_username(p: OAuthProvider, body: Seq<char>) -> Seq<char> {
    let key = match p {
        OAuthProvider::GitHub => seq!["login"@],
        OAuthProvider::GitLab => seq!["username"@],
        OAuthProvider::Bitbucket => seq!["username"@],
    };
    if json_str_paths(body).contains_key(key) {
        json_str_paths(body)[key]
    } else {
        Seq::empty()
    }
}

pub open spec fn spec_profile_email(body: Seq<char>) -> Option<Seq<char>> {
    if json_str_paths(body).contains_key(seq!["email"@]) {
        Some(json_str_paths(body)[seq!["email"@]])
    } else {
        None
    }
}

/// The avatar field per provider: top-level `avatar_url` on GitHub and GitLab,
/// nested `links.avatar.href` on Bitbucket.
pub open spec fn spec_profile_avatar(p: OAuthProvider, body: Seq<char>) -> Option<Seq<char>> {
    let key = match p {
        OAuthProvider::GitHub => seq!["avatar_url"@],
        OAuthProvider::GitLab => seq!["avatar_url"@],
        OAuthProvider::Bitbucket => seq!["links"@, "avatar"@, "href"@],
    };
    if json_str_paths(body).contains_key(key) {
        Some(json_str_paths(body)[key])
    } else {
        None
    }
}

/// A document is an acceptable profile exactly when it carries the provider's
/// id field: the id is the join key for user identity and the one mandatory
/// field.
pub open spec fn spec_profile_ok(p: OAuthProvider, body: Seq<char>) -> bool {
    spec_profile_id(p, body) is Some
}

/// Normalize a provider's user-info document into the canonical profile.
///
/// A missing username defaults to the empty string; missing email and avatar
/// are `None`. Fails with `ExternalServiceError` exactly when the document
/// does not parse as JSON carrying the provider's id field.
pub fn parse_profile(provider: &OAuthProvider, body: &str) -> (r: Result<OAuthUser, AppError>)
    ensures
        r is Ok <==> spec_profile_ok(*provider, body@),
        r matches Ok(u) ==> {
            &&& u.id@ == spec_profile_id(*provider, body@).unwrap()
            &&& u.username@ == spec_profile_username(*provider, body@)
            &&& (match spec_profile_email(body@) {
                Some(e) => u.email matches Some(x) && x@ == e,
                None => u.email is None,
            })
            &&& (match spec_profile_avatar(*provider, body@) {
                Some(a) => u.avatar_url matches Some(x) && x@ == a,
                None => u.avatar_url is None,
            })
        },
        r matches Err(e) ==> e matches AppError::ExternalServiceError(m) && m@
            == "Failed to parse user info"@,
{
    let id: String = match provider {
        OAuthProvider::GitHub | OAuthProvider::GitLab => {
            match json_i64_field(body, "id") {
                Some(n) => i64_to_string(n),
                None => {
                    return Err(
                        AppError::ExternalServiceError(
                            String::from_str("Failed to parse user info"),
                        ),
                    );
                },
            }
        },
        OAuthProvider::Bitbucket => {
            match json_str_field(body, "uuid") {
                Some(s) => s,
                None => {
                    return Err(
                        AppError::ExternalServiceError(
                            String::from_str("Failed to parse user info"),
                        ),
                    );
                },
            }
        },
    };
    let username = match provider {
        OAuthProvider::GitHub => json_str_field(body, "login"),
        OAuthProvider::GitLab | OAuthProvider::Bitbucket => json_str_field(body, "username"),
    };
    let username = match username {
        Some(s) => s,
        None => String::new(),
    };
    let email = json_str_field(body, "email");
    let avatar_url = match provider {
        OAuthProvider::GitHub | OAuthProvider::GitLab => json_str_field(body, "avatar_url"),
        OAuthProvider::Bitbucket => json_str_field_at(body, "links", "avatar", "href"),
    };
    Ok(OAuthUser { id, username, email, avatar_url })
}

} // verus!
