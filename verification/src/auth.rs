//! The session manager: the login session as an explicit value, read at the
//! start of a request, written once when authentication succeeds, and erased
//! wholesale on logout.

use vstd::prelude::*;
use vstd::string::*;

use crate::error::AppError;
use crate::text::clone_opt_string;

verus! {

/// The authenticated identity a session carries: the local user plus the live
/// provider tokens needed for follow-up calls to that provider.
#[derive(Debug)]
pub struct SessionUser {
    pub id: i64,
    pub username: String,
    pub email: Option<String>,
    pub provider: String,
    pub access_token: String,
    pub refresh_token: Option<String>,
}

impl Clone for SessionUser {
    fn clone(&self) -> (r: Self)
        ensures
            r == *self,
    {
        SessionUser {
            id: self.id,
            username: self.username.clone(),
            email: clone_opt_string(&self.email),
            provider: self.provider.clone(),
            access_token: self.access_token.clone(),
            refresh_token: clone_opt_string(&self.refresh_token),
        }
    }
}

/// The session store as an explicit value, one optional field per entry.
///
/// A real deployment keeps these entries in an encrypted, signed, http-only
/// cookie; this value is what that cookie holds once decoded.
pub struct SessionState {
    pub user_id: Option<i64>,
    pub username: Option<String>,
    pub email: Option<String>,
    pub provider: Option<String>,
    pub access_token: Option<String>,
    pub refresh_token: Option<String>,
}

impl SessionState {
    /// An erased session: no entry present at all.
    pub open spec fn is_cleared(&self) -> bool {
        &&& self.user_id is None
        &&& self.username is None
        &&& self.email is None
        &&& self.provider is None
        &&& self.access_token is None
        &&& self.refresh_token is None
    }

    /// The session content after establishing `user`: every entry replaced.
    pub open spec fn spec_established(user: SessionUser) -> SessionState {
        SessionState {
            user_id: Some(user.id),
            username: Some(user.username),
            email: user.email,
            provider: Some(user.provider),
            access_token: Some(user.access_token),
            refresh_token: user.refresh_token,
        }
    }

    /// A fresh, anonymous session.
    pub fn new() -> (r: SessionState)
        ensures
            r.is_cleared(),
    {
        SessionState {
            user_id: None,
            username: None,
            email: None,
            provider: None,
            access_token: None,
            refresh_token: None,
        }
    }
}

/// Reconstruct the session's user, if one is present.
///
/// A session without a user id is anonymous. When a user id is present,
/// absent username, provider and access-token entries default to the empty
/// string rather than failing.
pub fn get_session_user(session: &SessionState) -> (r: Result<Option<SessionUser>, AppError>)
    ensures
        r is Ok,
        session.user_id is None ==> r == Ok::<Option<SessionUser>, AppError>(None),
        session.user_id matches Some(id) ==> r matches Ok(Some(u)) && {
            &&& u.id == id
            &&& u.username@ == (match session.username {
                Some(s) => s@,
                None => Seq::<char>::empty(),
            })
            &&& u.email == session.email
            &&& u.provider@ == (match session.provider {
                Some(s) => s@,
                None => Seq::<char>::empty(),
            })
            &&& u.access_token@ == (match session.access_token {
                Some(s) => s@,
                None => Seq::<char>::empty(),
            })
            &&& u.refresh_token == session.refresh_token
        },
{
    match session.user_id {
        None => Ok(None),
        Some(id) => Ok(
            Some(
                SessionUser {
                    id,
                    username: match clone_opt_string(&session.username) {
                        Some(s) => s,
                        None => String::new(),
                    },
                    email: clone_opt_string(&session.email),
                    provider: match clone_opt_string(&session.provider) {
                        Some(s) => s,
                        None => String::new(),
                    },
                    access_token: match clone_opt_string(&session.access_token) {
                        Some(s) => s,
                        None => String::new(),
                    },
                    refresh_token: clone_opt_string(&session.refresh_token),
                },
            ),
        ),
    }
}

/// Write `user` into the session, replacing any prior content.
pub fn set_session_user(session: &mut SessionState, user: SessionUser) -> (r: Result<(), AppError>)
    ensures
        r is Ok,
        *final(session) == SessionState::spec_established(user),
{
    session.user_id = Some(user.id);
    session.username = Some(user.username);
    session.email = user.email;
    session.provider = Some(user.provider);
    session.access_token = Some(user.access_token);
    session.refresh_token = user.refresh_token;
    Ok(())
}

/// Accept the request only when the session carries a user.
pub fn validate_auth(session: &SessionState) -> (r: Result<(), AppError>)
    ensures
        r is Ok <==> session.user_id is Some,
        r matches Err(e) ==> e matches AppError::AuthError(m) && m@ == "Unauthorized"@,
{
    if session.user_id.is_some() {
        Ok(())
    } else {
        Err(AppError::AuthError(String::from_str("Unauthorized")))
    }
}

/// Erase the session entirely, not merely the user entries.
pub fn clear_session(session: &mut SessionState) -> (r: Result<(), AppError>)
    ensures
        r is Ok,
        final(session).is_cleared(),
{
    session.user_id = None;
    session.username = None;
    session.email = None;
    session.provider = None;
    session.access_token = None;
    session.refresh_token = None;
    Ok(())
}

/// Law: the erased session is a single state, so clearing it again changes
/// nothing, and — since an anonymous session has no user id — a protected
/// read after a logout finds no user and fails authentication.
pub proof fn lemma_clear_idempotent(s1: SessionState, s2: SessionState)
    requires
        s1.is_cleared(),
        s2.is_cleared(),
    ensures
        s1 == s2,
        s1.user_id is None,
{
}

} // verus!
