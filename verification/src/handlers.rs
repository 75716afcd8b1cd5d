//! The auth-flow orchestrator: `begin` builds the authorization redirect with
//! a fresh anti-forgery state token; `callback` takes the provider's answer —
//! the query it redirected back with and the observed HTTP outcomes of the
//! token exchange and the profile fetch — and sequences code exchange, profile
//! normalization, idempotent user provisioning and session establishment.
//! `logout` erases the session.

use vstd::prelude::*;
use vstd::string::*;

use crate::auth::{set_session_user, SessionState, SessionUser};
use crate::config::{OAuthProvider, ProviderConfig};
use crate::error::AppError;
use crate::models::{spec_first_match, User, UserStore};
use crate::oauth::{
    is_state_char, parse_token_response, spec_authorization_url, spec_exchange_err_msg,
    spec_exchange_ok, token_matches_exchange, build_authorization_url, generate_state_token,
    HttpOutcome, OAuthToken,
};
use crate::profile::{
    parse_profile, spec_profile_avatar, spec_profile_email, spec_profile_id, spec_profile_ok,
    spec_profile_username,
};
use crate::text::clone_opt_string;

verus! {

/// The query parameters a provider redirects back with.
///
/// `state` is the anti-forgery token that `begin` embedded in the redirect; it
/// is carried here but not verified against a stored copy, since no copy is
/// kept server-side in this design — a known cross-site-request-forgery gap of
/// the flow as specified.
pub struct OAuthCallback {
    pub code: Option<String>,
    pub state: Option<String>,
    pub error: Option<String>,
    pub error_description: Option<String>,
}

/// A callback's non-error outcomes: a completed login, or the provider's
/// denial — an expected terminal state, not a server fault.
#[derive(Debug)]
pub enum CallbackResponse {
    Success(User),
    Denied(String),
}

/// The first decision of a callback, before any outside call is made.
pub enum Precheck {
    /// The query carried `error`: report the denial and stop.
    Denied(String),
    /// Neither `error` nor `code`: a malformed callback.
    MissingCode,
    /// A code to exchange.
    Proceed(String),
}

/// Start the flow for the provider of `cfg`: a fresh state token and the URL
/// the browser is to be redirected to. Writes nothing: no session entry is
/// made before the provider answers.
pub fn begin(cfg: &ProviderConfig) -> (r: (String, String))
    requires
        cfg.wf(),
    ensures
        r.0@ == spec_authorization_url(*cfg, r.1@),
        r.1@.len() == 22,
        forall|i: int| 0 <= i < r.1@.len() ==> is_state_char(#[trigger] r.1@[i]),
{
    let state = generate_state_token();
    let url = build_authorization_url(cfg, state.as_str());
    (url, state)
}

/// Start the GitHub flow.
pub fn github_auth(cfg: &ProviderConfig) -> (r: (String, String))
    requires
        cfg.wf(),
        cfg.provider == OAuthProvider::GitHub,
    ensures
        r.0@ == spec_authorization_url(*cfg, r.1@),
        r.1@.len() == 22,
        forall|i: int| 0 <= i < r.1@.len() ==> is_state_char(#[trigger] r.1@[i]),
{
    begin(cfg)
}

/// Start the GitLab flow.
pub fn gitlab_auth(cfg: &ProviderConfig) -> (r: (String, String))
    requires
        cfg.wf(),
        cfg.provider == OAuthProvider::GitLab,
    ensures
        r.0@ == spec_authorization_url(*cfg, r.1@),
        r.1@.len() == 22,
        forall|i: int| 0 <= i < r.1@.len() ==> is_state_char(#[trigger] r.1@[i]),
{
    begin(cfg)
}

/// Start the Bitbucket flow.
pub fn bitbucket_auth(cfg: &ProviderConfig) -> (r: (String, String))
    requires
        cfg.wf(),
        cfg.provider == OAuthProvider::Bitbucket,
    ensures
        r.0@ == spec_authorization_url(*cfg, r.1@),
        r.1@.len() == 22,
        forall|i: int| 0 <= i < r.1@.len() ==> is_state_char(#[trigger] r.1@[i]),
{
    begin(cfg)
}

/// The denial text reported to the user: the provider's own description when
/// it sent one, a generic message otherwise.
pub open spec fn spec_denial_message(q: OAuthCallback) -> Seq<char> {
    match q.error_description {
        Some(d) => d@,
        None => "OAuth consent was denied"@,
    }
}

/// Decide what a callback query asks for, before any outside call is made.
pub fn callback_precheck(q: &OAuthCallback) -> (r: Precheck)
    ensures
        q.error is Some ==> (r matches Precheck::Denied(m) && m@ == spec_denial_message(*q)),
        q.error is None ==> (match q.code {
            None => r is MissingCode,
            Some(c) => r matches Precheck::Proceed(x) && x@ == c@,
        }),
{
    if q.error.is_some() {
        let msg = match clone_opt_string(&q.error_description) {
            Some(d) => d,
            None => String::from_str("OAuth consent was denied"),
        };
        return Precheck::Denied(msg);
    }
    match clone_opt_string(&q.code) {
        None => Precheck::MissingCode,
        Some(c) => Precheck::Proceed(c),
    }
}

/// Neither the table nor the session moved.
pub open spec fn spec_unchanged(
    pre_store: UserStore,
    post_store: UserStore,
    pre_session: SessionState,
    post_session: SessionState,
) -> bool {
    post_store == pre_store && post_session == pre_session
}

/// The session carries exactly this login: the user's identity together with
/// the live tokens from this exchange, under the provider's name.
pub open spec fn session_holds_login(
    s: SessionState,
    user: User,
    token: OAuthToken,
    p: OAuthProvider,
) -> bool {
    &&& s.user_id == Some(user.id)
    &&& s.username == Some(user.username)
    &&& s.email == user.email
    &&& s.provider matches Some(x) && x@ == p.spec_name()
    &&& s.access_token == Some(token.access_token)
    &&& s.refresh_token == token.refresh_token
}

/// The row a first login for this document inserts.
pub open spec fn spec_created_user(
    user: User,
    p: OAuthProvider,
    body: Seq<char>,
    next_id: i64,
    created_at: Seq<char>,
) -> bool {
    &&& user.id == next_id
    &&& user.provider@ == p.spec_name()
    &&& user.provider_user_id@ == spec_profile_id(p, body).unwrap()
    &&& user.username@ == spec_profile_username(p, body)
    &&& (match spec_profile_email(body) {
        Some(e) => user.email matches Some(x) && x@ == e,
        None => user.email is None,
    })
    &&& (match spec_profile_avatar(p, body) {
        Some(a) => user.avatar_url matches Some(x) && x@ == a,
        None => user.avatar_url is None,
    })
    &&& user.access_token is None
    &&& user.refresh_token is None
    &&& user.created_at@ == created_at
}

/// Everything the tail of a callback — profile fetch onward — does, as a
/// relation between the observed fetch outcome, the stores before and after,
/// and the result.
pub open spec fn spec_finish_outcome(
    p: OAuthProvider,
    token: OAuthToken,
    fetch: HttpOutcome,
    pre_store: UserStore,
    post_store: UserStore,
    pre_session: SessionState,
    post_session: SessionState,
    created_at: Seq<char>,
    r: Result<User, AppError>,
) -> bool {
    match fetch {
        HttpOutcome::Transport(_) => r matches Err(e) && e is ExternalServiceError
            && spec_unchanged(pre_store, post_store, pre_session, post_session),
        HttpOutcome::Response(status, body) => {
            if !(200 <= status < 300) {
                r matches Err(e) && e is ExternalServiceError && spec_unchanged(
                    pre_store,
                    post_store,
                    pre_session,
                    post_session,
                )
            } else if !spec_profile_ok(p, body@) {
                r matches Err(e) && e is ExternalServiceError && spec_unchanged(
                    pre_store,
                    post_store,
                    pre_session,
                    post_session,
                )
            } else {
                match spec_first_match(
                    pre_store.users@,
                    p.spec_name(),
                    spec_profile_id(p, body@).unwrap(),
                ) {
                    Some(u) => r matches Ok(user) && user == u && post_store == pre_store
                        && session_holds_login(post_session, u, token, p),
                    None => {
                        if pre_store.next_id == i64::MAX {
                            r matches Err(e) && e is DatabaseError && spec_unchanged(
                                pre_store,
                                post_store,
                                pre_session,
                                post_session,
                            )
                        } else {
                            r matches Ok(user) && spec_created_user(
                                user,
                                p,
                                body@,
                                pre_store.next_id,
                                created_at,
                            ) && post_store.users@ == pre_store.users@.push(user)
                                && post_store.next_id == pre_store.next_id + 1
                                && session_holds_login(post_session, user, token, p)
                        }
                    },
                }
            }
        },
    }
}

/// Finish a callback once the code was exchanged for `token`: judge the
/// profile fetch, normalize the document, find or create the user row, and
/// establish the session. On every failure both stores stand unchanged: no
/// partial session is ever left behind.
pub fn callback_finish(
    provider: &OAuthProvider,
    token: &OAuthToken,
    fetch: &HttpOutcome,
    store: &mut UserStore,
    session: &mut SessionState,
    created_at: &str,
) -> (r: Result<User, AppError>)
    requires
        old(store).wf(),
    ensures
        final(store).wf(),
        spec_finish_outcome(
            *provider,
            *token,
            *fetch,
            *old(store),
            *final(store),
            *old(session),
            *final(session),
            created_at@,
            r,
        ),
        r is Err ==> *final(store) == *old(store) && *final(session) == *old(session),
{
    let body: &String = match fetch {
        HttpOutcome::Transport(d) => {
            return Err(
                AppError::ExternalServiceError(
                    String::from_str("Failed to get user info: ").concat(d.as_str()),
                ),
            );
        },
        HttpOutcome::Response(status, body) => {
            if *status < 200 || *status >= 300 {
                return Err(
                    AppError::ExternalServiceError(String::from_str("Failed to get user info")),
                );
            }
            body
        },
    };
    let profile = match parse_profile(provider, body.as_str()) {
        Ok(p) => p,
        Err(e) => {
            return Err(e);
        },
    };
    let user = match User::find_or_create(
        store,
        provider,
        profile.id.as_str(),
        profile.username.as_str(),
        opt_as_str(&profile.email),
        opt_as_str(&profile.avatar_url),
        created_at,
    ) {
        Ok(u) => u,
        Err(e) => {
            return Err(e);
        },
    };
    let session_user = SessionUser {
        id: user.id,
        username: user.username.clone(),
        email: clone_opt_string(&user.email),
        provider: provider.to_string(),
        access_token: token.access_token.clone(),
        refresh_token: clone_opt_string(&token.refresh_token),
    };
    match set_session_user(session, session_user) {
        Ok(_) => Ok(user),
        Err(e) => Err(e),
    }
}

/// Borrow an optional string's content.
fn opt_as_str<'a>(o: &'a Option<String>) -> (r: Option<&'a str>)
    ensures
        match o {
            Some(s) => r matches Some(x) && x@ == s@,
            None => r is None,
        },
{
    match o {
        Some(s) => Some(s.as_str()),
        None => None,
    }
}

/// Everything a callback does, as a relation between the query, the observed
/// outside outcomes, the stores before and after, and the result.
pub open spec fn spec_callback_outcome(
    p: OAuthProvider,
    q: OAuthCallback,
    exchange: HttpOutcome,
    fetch: HttpOutcome,
    pre_store: UserStore,
    post_store: UserStore,
    pre_session: SessionState,
    post_session: SessionState,
    created_at: Seq<char>,
    r: Result<CallbackResponse, AppError>,
) -> bool {
    if q.error is Some {
        r matches Ok(resp) && resp matches CallbackResponse::Denied(m) && m@
            == spec_denial_message(q) && spec_unchanged(
            pre_store,
            post_store,
            pre_session,
            post_session,
        )
    } else if q.code is None {
        r matches Err(e) && e matches AppError::ValidationError(m) && m@
            == "Missing authorization code"@ && spec_unchanged(
            pre_store,
            post_store,
            pre_session,
            post_session,
        )
    } else if !spec_exchange_ok(exchange) {
        r matches Err(e) && e matches AppError::AuthError(m) && m@ == spec_exchange_err_msg(
            exchange,
        ) && spec_unchanged(pre_store, post_store, pre_session, post_session)
    } else {
        exists|t: OAuthToken|
            #[trigger] token_matches_exchange(t, exchange) && (match r {
                Ok(resp) => resp matches CallbackResponse::Success(user) && spec_finish_outcome(
                    p,
                    t,
                    fetch,
                    pre_store,
                    post_store,
                    pre_session,
                    post_session,
                    created_at,
                    Ok(user),
                ),
                Err(e) => spec_finish_outcome(
                    p,
                    t,
                    fetch,
                    pre_store,
                    post_store,
                    pre_session,
                    post_session,
                    created_at,
                    Err(e),
                ),
            })
    }
}

/// Handle a provider's callback.
///
/// The query decides first: a denial is reported without touching anything,
/// and a missing code is a `ValidationError`. Then the exchange answer is
/// judged — any failure there is an `AuthError` — and the rest is
/// [`callback_finish`]. On every failure the table and the session stand
/// unchanged.
pub fn callback(
    provider: &OAuthProvider,
    query: &OAuthCallback,
    exchange: &HttpOutcome,
    fetch: &HttpOutcome,
    store: &mut UserStore,
    session: &mut SessionState,
    created_at: &str,
) -> (r: Result<CallbackResponse, AppError>)
    requires
        old(store).wf(),
    ensures
        final(store).wf(),
        spec_callback_outcome(
            *provider,
            *query,
            *exchange,
            *fetch,
            *old(store),
            *final(store),
            *old(session),
            *final(session),
            created_at@,
            r,
        ),
        query.error is Some ==> *final(store) == *old(store) && *final(session) == *old(session),
        r is Err ==> *final(store) == *old(store) && *final(session) == *old(session),
{
    match callback_precheck(query) {
        Precheck::Denied(m) => {
            return Ok(CallbackResponse::Denied(m));
        },
        Precheck::MissingCode => {
            return Err(AppError::ValidationError(String::from_str("Missing authorization code")));
        },
        Precheck::Proceed(_code) => {},
    }
    let token = match parse_token_response(exchange) {
        Ok(t) => t,
        Err(e) => {
            return Err(e);
        },
    };
    proof {
        assert(token_matches_exchange(token, *exchange));
    }
    match callback_finish(provider, &token, fetch, store, session, created_at) {
        Ok(user) => Ok(CallbackResponse::Success(user)),
        Err(e) => Err(e),
    }
}

/// Handle the GitHub callback.
pub fn github_callback(
    query: &OAuthCallback,
    exchange: &HttpOutcome,
    fetch: &HttpOutcome,
    store: &mut UserStore,
    session: &mut SessionState,
    created_at: &str,
) -> (r: Result<CallbackResponse, AppError>)
    requires
        old(store).wf(),
    ensures
        final(store).wf(),
        spec_callback_outcome(
            OAuthProvider::GitHub,
            *query,
            *exchange,
            *fetch,
            *old(store),
            *final(store),
            *old(session),
            *final(session),
            created_at@,
            r,
        ),
        r is Err ==> *final(store) == *old(store) && *final(session) == *old(session),
{
    callback(&OAuthProvider::GitHub, query, exchange, fetch, store, session, created_at)
}

/// Handle the GitLab callback.
pub fn gitlab_callback(
    query: &OAuthCallback,
    exchange: &HttpOutcome,
    fetch: &HttpOutcome,
    store: &mut UserStore,
    session: &mut SessionState,
    created_at: &str,
) -> (r: Result<CallbackResponse, AppError>)
    requires
        old(store).wf(),
    ensures
        final(store).wf(),
        spec_callback_outcome(
            OAuthProvider::GitLab,
            *query,
            *exchange,
            *fetch,
            *old(store),
            *final(store),
            *old(session),
            *final(session),
            created_at@,
            r,
        ),
        r is Err ==> *final(store) == *old(store) && *final(session) == *old(session),
{
    callback(&OAuthProvider::GitLab, query, exchange, fetch, store, session, created_at)
}

/// Handle the Bitbucket callback.
pub fn bitbucket_callback(
    query: &OAuthCallback,
    exchange: &HttpOutcome,
    fetch: &HttpOutcome,
    store: &mut UserStore,
    session: &mut SessionState,
    created_at: &str,
) -> (r: Result<CallbackResponse, AppError>)
    requires
        old(store).wf(),
    ensures
        final(store).wf(),
        spec_callback_outcome(
            OAuthProvider::Bitbucket,
            *query,
            *exchange,
            *fetch,
            *old(store),
            *final(store),
            *old(session),
            *final(session),
            created_at@,
            r,
        ),
        r is Err ==> *final(store) == *old(store) && *final(session) == *old(session),
{
    callback(&OAuthProvider::Bitbucket, query, exchange, fetch, store, session, created_at)
}

/// A fetch outcome that completes: a 2xx answer whose document carries the
/// external identity `e` for provider `p`.
pub open spec fn fetch_yields_id(f: HttpOutcome, p: OAuthProvider, e: Seq<char>) -> bool {
    f matches HttpOutcome::Response(status, body) && 200 <= status < 300 && spec_profile_id(
        p,
        body@,
    ) == Some(e)
}

/// Law: callbacks for one external identity converge. After a first completed
/// callback — whatever tokens, documents or clock readings the two see — a
/// second callback for the same identity returns the very same user row, with
/// the same local id, changes the table not at all, and cannot fail: no
/// uniqueness violation is observable to either caller. The table then holds
/// exactly one row for the identity. Since a simultaneous pair of first
/// logins is, with an atomic insert path, an interleaving of two such calls,
/// racing first logins converge the same way.
pub proof fn lemma_repeated_callback_converges(
    p: OAuthProvider,
    t1: OAuthToken,
    t2: OAuthToken,
    f1: HttpOutcome,
    f2: HttpOutcome,
    s0: UserStore,
    s1: UserStore,
    s2: UserStore,
    g0: SessionState,
    g1: SessionState,
    g1b: SessionState,
    g2: SessionState,
    c1: Seq<char>,
    c2: Seq<char>,
    u1: User,
    r2: Result<User, AppError>,
    e: Seq<char>,
)
    requires
        s0.wf(),
        fetch_yields_id(f1, p, e),
        fetch_yields_id(f2, p, e),
        spec_finish_outcome(p, t1, f1, s0, s1, g0, g1, c1, Ok(u1)),
        spec_finish_outcome(p, t2, f2, s1, s2, g1b, g2, c2, r2),
    ensures
        r2 == Ok::<User, AppError>(u1),
        s2 == s1,
        crate::models::spec_count_matches(s2.users@, p.spec_name(), e) == 1,
{
    let name = p.spec_name();
    match spec_first_match(s0.users@, name, e) {
        Some(u0) => {
            crate::models::lemma_lookup_count(s0.users@, name, e);
        },
        None => {
            crate::models::lemma_creation_then_lookup(s0.users@, name, e, u1);
        },
    }
}

/// End the session. Idempotent: logging out of an anonymous session succeeds
/// and leaves it anonymous.
pub fn logout(session: &mut SessionState) -> (r: Result<(), AppError>)
    ensures
        r is Ok,
        final(session).is_cleared(),
{
    crate::auth::clear_session(session)
}

} // verus!
