//! The per-request credential: the secret a request arrived with, and the
//! identity it resolves to once the identity store has answered.
//!
//! The store is not reached from here. [`Auth::store_query`] says what has to
//! be looked up, the caller performs the lookup, and [`Auth::validate`] takes
//! the answer.

use vstd::prelude::*;

use crate::error::{not_authed, AuthError};
use crate::tier::tier_view;

verus! {

/// Raw, single-use credential material taken from the transport.
#[derive(Debug, PartialEq, Eq)]
pub enum Secret {
    /// The value of the session cookie.
    SessionToken(String),
    /// Username and password of a `Basic` authorization header.
    BasicAuth(String, String),
}

/// What a [`Secret`] holds, over plain sequences.
pub enum SecretView {
    SessionToken(Seq<char>),
    BasicAuth(Seq<char>, Seq<char>),
}

impl DeepView for Secret {
    type V = SecretView;

    open spec fn deep_view(&self) -> SecretView {
        match self {
            Secret::SessionToken(token) => SecretView::SessionToken(token@),
            Secret::BasicAuth(username, password) => SecretView::BasicAuth(username@, password@),
        }
    }
}

/// One record of the identity store: a user and the tier the account holds.
#[derive(Debug, PartialEq, Eq)]
pub struct UserRow {
    pub uid: i64,
    pub access: Option<String>,
}

/// What a [`UserRow`] holds, over plain sequences.
pub struct UserRowView {
    pub uid: i64,
    pub access: Option<Seq<char>>,
}

impl DeepView for UserRow {
    type V = UserRowView;

    open spec fn deep_view(&self) -> UserRowView {
        UserRowView { uid: self.uid, access: tier_view(self.access) }
    }
}

/// A lookup the identity store has to perform. The store is only ever read.
#[derive(Debug, PartialEq, Eq)]
pub enum StoreQuery {
    /// The account with this username whose stored hash matches the password.
    FindByCredentials { username: String, password: String },
    /// The account that holds this session token, if it has not expired.
    FindByToken { token: String },
}

/// What a [`StoreQuery`] holds, over plain sequences.
pub enum StoreQueryView {
    FindByCredentials { username: Seq<char>, password: Seq<char> },
    FindByToken { token: Seq<char> },
}

impl DeepView for StoreQuery {
    type V = StoreQueryView;

    open spec fn deep_view(&self) -> StoreQueryView {
        match self {
            StoreQuery::FindByCredentials { username, password } => StoreQueryView::FindByCredentials {
                username: username@,
                password: password@,
            },
            StoreQuery::FindByToken { token } => StoreQueryView::FindByToken { token: token@ },
        }
    }
}

impl StoreQueryView {
    /// The statement the store runs. Each returns the columns `id, access`.
    pub open spec fn statement(self) -> Seq<char> {
        match self {
            StoreQueryView::FindByCredentials { .. } =>
                "SELECT id, access FROM users WHERE username = $1 AND password = crypt($2, password)"@,
            StoreQueryView::FindByToken { .. } =>
                "SELECT users_tokens.uid, users.access FROM users_tokens, users WHERE token = $1 AND now() < expiry AND users_tokens.uid = users.id"@,
        }
    }

    /// The values bound to `$1`, `$2`, in that order.
    pub open spec fn parameters(self) -> Seq<Seq<char>> {
        match self {
            StoreQueryView::FindByCredentials { username, password } => seq![username, password],
            StoreQueryView::FindByToken { token } => seq![token],
        }
    }
}

impl StoreQuery {
    /// The statement the store runs. A token is matched only while it has not
    /// expired, so an expired token and one that was never issued are
    /// answered alike: with no rows.
    pub fn statement(&self) -> (sql: &'static str)
        ensures
            sql@ == self.deep_view().statement(),
    {
        match self {
            StoreQuery::FindByCredentials { .. } =>
                "SELECT id, access FROM users WHERE username = $1 AND password = crypt($2, password)",
            StoreQuery::FindByToken { .. } =>
                "SELECT users_tokens.uid, users.access FROM users_tokens, users WHERE token = $1 AND now() < expiry AND users_tokens.uid = users.id",
        }
    }

    /// The values bound to `$1`, `$2`, in that order.
    pub fn parameters(&self) -> (values: Vec<String>)
        ensures
            values.deep_view() == self.deep_view().parameters(),
    {
        let mut values: Vec<String> = Vec::new();
        match self {
            StoreQuery::FindByCredentials { username, password } => {
                values.push(username.clone());
                values.push(password.clone());
            },
            StoreQuery::FindByToken { token } => {
                values.push(token.clone());
            },
        }
        assert(values.deep_view() =~= self.deep_view().parameters());
        values
    }
}

/// What came back from the identity store.
#[derive(Debug, PartialEq, Eq)]
pub enum StoreReply {
    /// The store was not asked.
    NotAsked,
    /// The records the lookup matched, in the order the store returned them.
    Rows(Vec<UserRow>),
    /// The store could not be reached, or the lookup failed.
    Failed,
}

/// What a [`StoreReply`] holds, over plain sequences.
pub enum StoreReplyView {
    NotAsked,
    Rows(Seq<UserRowView>),
    Failed,
}

impl View for StoreReply {
    type V = StoreReplyView;

    open spec fn view(&self) -> StoreReplyView {
        match self {
            StoreReply::NotAsked => StoreReplyView::NotAsked,
            StoreReply::Rows(rows) => StoreReplyView::Rows(rows.deep_view()),
            StoreReply::Failed => StoreReplyView::Failed,
        }
    }
}

/// The credential of one request. It is created empty, holds at most one
/// secret, and is resolved at most once: resolving it replaces the secret by
/// the identity it stands for.
#[derive(Debug, PartialEq)]
pub struct Auth {
    /// The resolved identity, if any.
    pub uid: Option<i64>,
    /// The tier of the resolved identity.
    pub access: Option<String>,
    /// The secret that has yet to be resolved.
    pub secret: Option<Secret>,
}

/// What an [`Auth`] holds, over plain sequences.
pub struct AuthView {
    pub uid: Option<i64>,
    pub access: Option<Seq<char>>,
    pub secret: Option<SecretView>,
}

impl View for Auth {
    type V = AuthView;

    open spec fn view(&self) -> AuthView {
        AuthView {
            uid: self.uid,
            access: tier_view(self.access),
            secret: self.secret.deep_view(),
        }
    }
}

impl AuthView {
    /// The credential of a request that carried nothing.
    pub open spec fn anonymous() -> AuthView {
        AuthView { uid: None, access: None, secret: None }
    }

    /// The credential once its secrets are dropped and, if a user was found,
    /// that user is recorded.
    pub open spec fn secure(self, user: Option<(i64, Option<Seq<char>>)>) -> AuthView {
        match user {
            Some(found) => AuthView { uid: Some(found.0), access: found.1, secret: None },
            None => AuthView { uid: self.uid, access: self.access, secret: None },
        }
    }

    /// The lookup that resolving this credential needs: none once the secret
    /// is gone.
    pub open spec fn query(self) -> Option<StoreQueryView> {
        match self.secret {
            None => None,
            Some(SecretView::BasicAuth(username, password)) => Some(
                StoreQueryView::FindByCredentials { username: username, password: password },
            ),
            Some(SecretView::SessionToken(token)) => Some(
                StoreQueryView::FindByToken { token: token },
            ),
        }
    }

    /// The record that resolves the secret. A username and password must
    /// match exactly one record; for a token the first match counts.
    pub open spec fn matched(self, reply: StoreReplyView) -> Option<UserRowView> {
        match (self.secret, reply) {
            (Some(SecretView::BasicAuth(_, _)), StoreReplyView::Rows(rows)) => if rows.len() == 1 {
                Some(rows[0])
            } else {
                None
            },
            (Some(SecretView::SessionToken(_)), StoreReplyView::Rows(rows)) => if rows.len() > 0 {
                Some(rows[0])
            } else {
                None
            },
            _ => None,
        }
    }

    /// What resolving the credential against `reply` returns.
    pub open spec fn validation(self, reply: StoreReplyView) -> Result<Option<i64>, AuthError> {
        match self.secret {
            None => Ok(self.uid),
            Some(_) => match self.matched(reply) {
                Some(row) => Ok(Some(row.uid)),
                None => Err(AuthError::NotAuthenticated),
            },
        }
    }

    /// The credential after it was resolved against `reply`.
    pub open spec fn validated(self, reply: StoreReplyView) -> AuthView {
        match self.matched(reply) {
            Some(row) => self.secure(Some((row.uid, row.access))),
            None => self,
        }
    }

    /// Whether resolving against `reply` yields an identity.
    pub open spec fn identified(self, reply: StoreReplyView) -> bool {
        self.validation(reply) matches Ok(Some(_))
    }
}

impl Auth {
    /// The credential of a request before anything is known of it.
    pub fn new() -> (auth: Self)
        ensures
            auth@ == AuthView::anonymous(),
    {
        Auth { uid: None, access: None, secret: None }
    }

    /// Drops every secret, and records `user` if one is given.
    pub fn secure(&mut self, user: Option<(i64, Option<String>)>)
        ensures
            final(self)@ == old(self)@.secure(user.deep_view()),
    {
        match user {
            Some(user) => {
                self.uid = Some(user.0);
                self.access = user.1;
            },
            _ => (),
        }
        self.secret = None;
    }

    /// What the identity store has to be asked before this credential can be
    /// resolved: nothing when no secret is held.
    pub fn store_query(&self) -> (query: Option<StoreQuery>)
        ensures
            query.deep_view() == self@.query(),
    {
        match &self.secret {
            None => None,
            Some(Secret::BasicAuth(username, password)) => Some(
                StoreQuery::FindByCredentials {
                    username: username.clone(),
                    password: password.clone(),
                },
            ),
            Some(Secret::SessionToken(token)) => Some(
                StoreQuery::FindByToken { token: token.clone() },
            ),
        }
    }

    /// Resolves the credential against the answer to [`Auth::store_query`].
    ///
    /// With a secret held, the answer must name the user: exactly one record
    /// for a username and password, at least one for a token. The identity
    /// and its tier are then recorded and the secret is dropped for good.
    /// Any other answer is a denial and leaves the credential untouched.
    /// Without a secret the answer is not looked at and the recorded identity,
    /// if any, is returned.
    pub fn validate(&mut self, reply: &StoreReply) -> (r: Result<Option<i64>, AuthError>)
        ensures
            r == old(self)@.validation(reply@),
            final(self)@ == old(self)@.validated(reply@),
    {
        let exactly_one = match &self.secret {
            None => {
                return Ok(self.uid);
            },
            Some(Secret::BasicAuth(_, _)) => true,
            Some(Secret::SessionToken(_)) => false,
        };
        match reply {
            StoreReply::Rows(rows) => {
                if rows.len() == 0 || (exactly_one && rows.len() != 1) {
                    return Err(not_authed());
                }
                let uid = rows[0].uid;
                let access = clone_tier(&rows[0].access);
                assert(rows.deep_view()[0] == rows[0].deep_view());
                self.secure(Some((uid, access)));
                Ok(Some(uid))
            },
            _ => Err(not_authed()),
        }
    }
}

/// A copy of an optional tier name.
fn clone_tier(tier: &Option<String>) -> (copy: Option<String>)
    ensures
        tier_view(copy) == tier_view(*tier),
{
    match tier {
        Some(name) => Some(name.clone()),
        None => None,
    }
}

/// A credential is resolved at most once. After a resolution that succeeded
/// the secret is gone and no lookup is asked for; resolving again returns the
/// same identity and changes nothing, whatever answer is handed in.
pub proof fn lemma_resolved_once(cred: AuthView, first: StoreReplyView, later: StoreReplyView)
    requires
        cred.validation(first) is Ok,
    ensures
        cred.validated(first).secret is None,
        cred.validated(first).query() is None,
        cred.validated(first).validation(later) == cred.validation(first),
        cred.validated(first).validated(later) == cred.validated(first),
{
}

/// A secret that the store matches to no record is denied and stays in
/// place. This is all the library sees of a session token that has expired
/// or was never issued: the store answers both with no rows.
pub proof fn lemma_unmatched_secret_is_denied(cred: AuthView)
    requires
        cred.secret is Some,
    ensures
        cred.validation(StoreReplyView::Rows(Seq::empty())) == Err::<Option<i64>, AuthError>(
            AuthError::NotAuthenticated,
        ),
        cred.validated(StoreReplyView::Rows(Seq::empty())) == cred,
{
}

/// With a secret held, a store that failed or was not asked is a denial like
/// any other, and the secret stays in place.
pub proof fn lemma_store_failure_is_denied(cred: AuthView, reply: StoreReplyView)
    requires
        cred.secret is Some,
        !(reply is Rows),
    ensures
        cred.validation(reply) == Err::<Option<i64>, AuthError>(AuthError::NotAuthenticated),
        cred.validated(reply) == cred,
{
}

} // verus!
