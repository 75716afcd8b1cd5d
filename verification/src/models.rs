//! The user store: local user rows keyed by (provider, provider-assigned id),
//! with idempotent find-or-create and an explicit token update.

use vstd::prelude::*;
use vstd::string::*;

use crate::config::OAuthProvider;
use crate::error::AppError;
use crate::text::{clone_opt_string, opt_str_to_owned, str_eq};

verus! {

/// A persisted local user. Identity is the pair (provider, provider_user_id);
/// `created_at` is set once at creation and never changed.
#[derive(Debug)]
pub struct User {
    pub id: i64,
    pub provider: String,
    pub provider_user_id: String,
    pub username: String,
    pub email: Option<String>,
    pub avatar_url: Option<String>,
    pub access_token: Option<String>,
    pub refresh_token: Option<String>,
    pub created_at: String,
}

impl Clone for User {
    fn clone(&self) -> (r: Self)
        ensures
            r == *self,
    {
        User {
            id: self.id,
            provider: self.provider.clone(),
            provider_user_id: self.provider_user_id.clone(),
            username: self.username.clone(),
            email: clone_opt_string(&self.email),
            avatar_url: clone_opt_string(&self.avatar_url),
            access_token: clone_opt_string(&self.access_token),
            refresh_token: clone_opt_string(&self.refresh_token),
            created_at: self.created_at.clone(),
        }
    }
}

/// A provider account linked to a local user.
#[derive(Debug)]
pub struct GitProvider {
    pub id: i64,
    pub user_id: i64,
    pub provider_type: String,
    pub access_token: String,
    pub refresh_token: Option<String>,
    pub expires_at: Option<String>,
}

/// A repository synchronized from a linked provider account.
#[derive(Debug)]
pub struct Repository {
    pub id: i64,
    pub user_id: i64,
    pub provider_id: i64,
    pub name: String,
    pub url: String,
    pub is_private: bool,
    pub last_synced: String,
}

/// Whether `u` is the row for the external identity (`provider`, `external_id`).
pub open spec fn row_matches(u: User, provider: Seq<char>, external_id: Seq<char>) -> bool {
    u.provider@ == provider && u.provider_user_id@ == external_id
}

/// The first row for the identity, scanning front to back.
pub open spec fn spec_first_match(users: Seq<User>, provider: Seq<char>, external_id: Seq<char>)
    -> Option<User>
    decreases users.len(),
{
    if users.len() == 0 {
        None
    } else if row_matches(users[0], provider, external_id) {
        Some(users[0])
    } else {
        spec_first_match(users.drop_first(), provider, external_id)
    }
}

/// How many rows carry the identity.
pub open spec fn spec_count_matches(users: Seq<User>, provider: Seq<char>, external_id: Seq<char>)
    -> nat
    decreases users.len(),
{
    if users.len() == 0 {
        0nat
    } else {
        (if row_matches(users[0], provider, external_id) {
            1nat
        } else {
            0nat
        }) + spec_count_matches(users.drop_first(), provider, external_id)
    }
}

/// No two rows carry the same external identity.
pub open spec fn keys_unique(users: Seq<User>) -> bool {
    forall|i: int, j: int|
        0 <= i < j < users.len() ==> !(#[trigger] users[i].provider@ == #[trigger] users[j].provider@
            && users[i].provider_user_id@ == users[j].provider_user_id@)
}

/// The table of local users together with the next id to hand out.
///
/// This is the in-memory model of the persisted `users` table; its
/// well-formedness carries the table's uniqueness constraint.
pub struct UserStore {
    pub users: Vec<User>,
    pub next_id: i64,
}

impl UserStore {
    /// Well-formedness: ids are positive, below the next id and pairwise
    /// distinct, and no external identity appears twice.
    pub open spec fn wf(&self) -> bool {
        &&& 1 <= self.next_id
        &&& forall|i: int|
            0 <= i < self.users@.len() ==> 1 <= (#[trigger] self.users@[i]).id < self.next_id
        &&& forall|i: int, j: int|
            0 <= i < j < self.users@.len() ==> (#[trigger] self.users@[i]).id != (
            #[trigger] self.users@[j]).id
        &&& keys_unique(self.users@)
    }

    /// An empty table.
    pub fn new() -> (r: UserStore)
        ensures
            r.wf(),
            r.users@.len() == 0,
            r.next_id == 1,
    {
        UserStore { users: Vec::new(), next_id: 1 }
    }
}

proof fn lemma_first_match_found(users: Seq<User>, p: Seq<char>, e: Seq<char>, i: int)
    requires
        0 <= i < users.len(),
        row_matches(users[i], p, e),
        forall|j: int| 0 <= j < i ==> !row_matches(#[trigger] users[j], p, e),
    ensures
        spec_first_match(users, p, e) == Some(users[i]),
    decreases i,
{
    if i == 0 {
    } else {
        assert(!row_matches(users[0], p, e));
        assert(users.drop_first()[i - 1] == users[i]);
        assert(forall|j: int|
            0 <= j < i - 1 ==> !row_matches(#[trigger] users.drop_first()[j], p, e)) by {
            assert(forall|j: int|
                0 <= j < i - 1 ==> #[trigger] users.drop_first()[j] == users[j + 1]);
        }
        lemma_first_match_found(users.drop_first(), p, e, i - 1);
    }
}

proof fn lemma_first_match_none(users: Seq<User>, p: Seq<char>, e: Seq<char>)
    requires
        forall|j: int| 0 <= j < users.len() ==> !row_matches(#[trigger] users[j], p, e),
    ensures
        spec_first_match(users, p, e) is None,
    decreases users.len(),
{
    if users.len() > 0 {
        assert(forall|j: int|
            0 <= j < users.len() - 1 ==> #[trigger] users.drop_first()[j] == users[j + 1]);
        lemma_first_match_none(users.drop_first(), p, e);
    }
}

/// From an absent first match, no row at all carries the identity.
proof fn lemma_no_row_when_none(users: Seq<User>, p: Seq<char>, e: Seq<char>)
    requires
        spec_first_match(users, p, e) is None,
    ensures
        forall|j: int| 0 <= j < users.len() ==> !row_matches(#[trigger] users[j], p, e),
    decreases users.len(),
{
    if users.len() > 0 {
        lemma_no_row_when_none(users.drop_first(), p, e);
        assert forall|j: int| 0 <= j < users.len() implies !row_matches(
            #[trigger] users[j],
            p,
            e,
        ) by {
            if j >= 1 {
                assert(users[j] == users.drop_first()[j - 1]);
                assert(!row_matches(users.drop_first()[j - 1], p, e));
            }
        }
    }
}

/// Find the index of the row for the identity, if one exists.
fn lookup_user(users: &Vec<User>, provider_name: &str, external_id: &str) -> (r: Option<usize>)
    ensures
        match r {
            Some(i) => i < users@.len() && row_matches(users@[i as int], provider_name@,
                external_id@) && spec_first_match(users@, provider_name@, external_id@) == Some(
                users@[i as int],
            ),
            None => spec_first_match(users@, provider_name@, external_id@) is None,
        },
{
    let n = users.len();
    let mut i: usize = 0;
    while i < n
        invariant
            i <= n,
            n == users@.len(),
            forall|j: int|
                0 <= j < i ==> !row_matches(#[trigger] users@[j], provider_name@, external_id@),
        decreases n - i,
    {
        let matches_provider = str_eq(users[i].provider.as_str(), provider_name);
        let matches_id = str_eq(users[i].provider_user_id.as_str(), external_id);
        if matches_provider && matches_id {
            proof {
                lemma_first_match_found(users@, provider_name@, external_id@, i as int);
            }
            return Some(i);
        }
        i = i + 1;
    }
    proof {
        lemma_first_match_none(users@, provider_name@, external_id@);
    }
    None
}

impl User {
    /// Look the identity up; return the existing row unchanged when present,
    /// insert a fresh row otherwise.
    ///
    /// The row's profile fields are set only at creation: a later call for the
    /// same identity returns the stored row as-is, whatever profile values it
    /// is called with. `created_at` is the caller's clock reading and is kept
    /// verbatim. The one failure is an exhausted id space, reported as
    /// `DatabaseError` with the table unchanged.
    pub fn find_or_create(
        store: &mut UserStore,
        provider: &OAuthProvider,
        provider_user_id: &str,
        username: &str,
        email: Option<&str>,
        avatar_url: Option<&str>,
        created_at: &str,
    ) -> (r: Result<User, AppError>)
        requires
            old(store).wf(),
        ensures
            final(store).wf(),
            match spec_first_match(old(store).users@, provider.spec_name(), provider_user_id@) {
                Some(u) => r == Ok::<User, AppError>(u) && *final(store) == *old(store),
                None => {
                    if old(store).next_id == i64::MAX {
                        r matches Err(e) && e is DatabaseError && *final(store) == *old(store)
                    } else {
                        r matches Ok(u) && {
                            &&& u.id == old(store).next_id
                            &&& u.provider@ == provider.spec_name()
                            &&& u.provider_user_id@ == provider_user_id@
                            &&& u.username@ == username@
                            &&& (match email {
                                Some(e) => u.email matches Some(x) && x@ == e@,
                                None => u.email is None,
                            })
                            &&& (match avatar_url {
                                Some(a) => u.avatar_url matches Some(x) && x@ == a@,
                                None => u.avatar_url is None,
                            })
                            &&& u.access_token is None
                            &&& u.refresh_token is None
                            &&& u.created_at@ == created_at@
                            &&& final(store).users@ == old(store).users@.push(u)
                            &&& final(store).next_id == old(store).next_id + 1
                        }
                    }
                },
            },
    {
        let pname = provider.to_string();
        match lookup_user(&store.users, pname.as_str(), provider_user_id) {
            Some(i) => Ok(store.users[i].clone()),
            None => {
                if store.next_id == i64::MAX {
                    return Err(
                        AppError::DatabaseError(String::from_str("user id space exhausted")),
                    );
                }
                let user = User {
                    id: store.next_id,
                    provider: pname,
                    provider_user_id: provider_user_id.to_owned(),
                    username: username.to_owned(),
                    email: opt_str_to_owned(email),
                    avatar_url: opt_str_to_owned(avatar_url),
                    access_token: None,
                    refresh_token: None,
                    created_at: created_at.to_owned(),
                };
                let result = user.clone();
                proof {
                    lemma_no_row_when_none(store.users@, provider.spec_name(), provider_user_id@);
                }
                store.users.push(user);
                store.next_id = store.next_id + 1;
                Ok(result)
            },
        }
    }

    /// Overwrite the stored tokens of the identity's row and return the row.
    ///
    /// Fails with `NotFound`, leaving the table unchanged, exactly when no row
    /// carries the identity.
    pub fn update_tokens(
        store: &mut UserStore,
        provider: &OAuthProvider,
        provider_user_id: &str,
        access_token: &str,
        refresh_token: Option<&str>,
    ) -> (r: Result<User, AppError>)
        requires
            old(store).wf(),
        ensures
            final(store).wf(),
            match spec_first_match(old(store).users@, provider.spec_name(), provider_user_id@) {
                None => r matches Err(e) && e is NotFound && *final(store) == *old(store),
                Some(u) => r matches Ok(v) && {
                    &&& v.id == u.id
                    &&& v.provider == u.provider
                    &&& v.provider_user_id == u.provider_user_id
                    &&& v.username == u.username
                    &&& v.email == u.email
                    &&& v.avatar_url == u.avatar_url
                    &&& v.created_at == u.created_at
                    &&& v.access_token matches Some(a) && a@ == access_token@
                    &&& (match refresh_token {
                        Some(rt) => v.refresh_token matches Some(x) && x@ == rt@,
                        None => v.refresh_token is None,
                    })
                    &&& exists|i: int|
                        0 <= i < old(store).users@.len() && old(store).users@[i] == u
                            && final(store).users@ == old(store).users@.update(i, v)
                    &&& final(store).next_id == old(store).next_id
                },
            },
    {
        let pname = provider.to_string();
        match lookup_user(&store.users, pname.as_str(), provider_user_id) {
            None => Err(AppError::NotFound(String::from_str("no user for this identity"))),
            Some(i) => {
                let mut v = store.users[i].clone();
                v.access_token = Some(access_token.to_owned());
                v.refresh_token = opt_str_to_owned(refresh_token);
                let result = v.clone();
                store.users.set(i, v);
                proof {
                    let ghost idx = i as int;
                    assert(old(store).users@[idx] == spec_first_match(
                        old(store).users@,
                        provider.spec_name(),
                        provider_user_id@,
                    ).unwrap());
                    assert(final(store).users@ == old(store).users@.update(idx, result));
                }
                Ok(result)
            },
        }
    }
}

/// Law: a first login inserts the row, and every later login for the same
/// identity finds exactly that row: the table holds one row for the identity,
/// lookups return it — with the same local id — and no uniqueness violation
/// can arise from repeating or racing the login.
pub proof fn lemma_creation_then_lookup(users: Seq<User>, p: Seq<char>, e: Seq<char>, u: User)
    requires
        keys_unique(users),
        spec_first_match(users, p, e) is None,
        u.provider@ == p,
        u.provider_user_id@ == e,
    ensures
        spec_first_match(users.push(u), p, e) == Some(u),
        spec_count_matches(users.push(u), p, e) == 1,
        keys_unique(users.push(u)),
{
    lemma_no_row_when_none(users, p, e);
    assert(forall|j: int| 0 <= j < users.len() ==> #[trigger] users.push(u)[j] == users[j]);
    assert(users.push(u)[users.len() as int] == u);
    lemma_first_match_found(users.push(u), p, e, users.len() as int);
    lemma_count_after_push(users, p, e, u);
}

proof fn lemma_count_after_push(users: Seq<User>, p: Seq<char>, e: Seq<char>, u: User)
    requires
        forall|j: int| 0 <= j < users.len() ==> !row_matches(#[trigger] users[j], p, e),
        row_matches(u, p, e),
    ensures
        spec_count_matches(users.push(u), p, e) == 1,
    decreases users.len(),
{
    if users.len() == 0 {
        assert(users.push(u)[0] == u);
        assert(users.push(u).drop_first() =~= Seq::<User>::empty());
        assert(spec_count_matches(Seq::<User>::empty(), p, e) == 0);
    } else {
        assert(users.push(u)[0] == users[0]);
        assert(!row_matches(users[0], p, e));
        assert(users.push(u).drop_first() =~= users.drop_first().push(u));
        assert forall|j: int| 0 <= j < users.drop_first().len() implies !row_matches(
            #[trigger] users.drop_first()[j],
            p,
            e,
        ) by {
            assert(users.drop_first()[j] == users[j + 1]);
            assert(!row_matches(users[j + 1], p, e));
        }
        lemma_count_after_push(users.drop_first(), p, e, u);
    }
}

/// Law: in a well-formed table the identity appears exactly once when a lookup
/// finds it, and not at all otherwise.
pub proof fn lemma_lookup_count(users: Seq<User>, p: Seq<char>, e: Seq<char>)
    requires
        keys_unique(users),
    ensures
        spec_first_match(users, p, e) is Some ==> spec_count_matches(users, p, e) == 1,
        spec_first_match(users, p, e) is None ==> spec_count_matches(users, p, e) == 0,
    decreases users.len(),
{
    if users.len() > 0 {
        assert(forall|j: int|
            0 <= j < users.len() - 1 ==> #[trigger] users.drop_first()[j] == users[j + 1]);
        lemma_lookup_count(users.drop_first(), p, e);
        if row_matches(users[0], p, e) {
            assert(forall|j: int|
                0 <= j < users.drop_first().len() ==> !row_matches(
                    #[trigger] users.drop_first()[j],
                    p,
                    e,
                ));
            lemma_first_match_none(users.drop_first(), p, e);
        }
    }
}

} // verus!
