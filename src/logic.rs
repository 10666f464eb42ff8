//! Login, logout, session resolution and entity lookups over the repositories.
use vstd::prelude::*;
use crate::client::{DbActionError, GraphClient, StoredNode, is_store_error};
use crate::credential::LoginRequest;
use crate::entity::{Session, SessionView, User, UserView, DecodeError};
use crate::repository::{
    SessionRepository, UserRepository, has_session_token, has_user_named, session_at, session_node,
    user_at, user_node, tokens_unique, lemma_remove_session_forgets_token, lemma_add_then_find_session,
};
use crate::session::{is_token, refreshed_at, now_millis};

verus! {

/// What a successful logout of token `t` does to the store: nothing where no
/// session has the token, else it removes one session node with that token.
pub open spec fn logged_out(before: Map<i64, StoredNode>, after: Map<i64, StoredNode>, t: Seq<char>) -> bool {
    (!has_session_token(before, t) && after == before)
        || (exists|nid: i64| #[trigger] session_at(before, nid) matches Some(Ok(s))
            && s.id == t && after == before.remove(nid))
}

/// After a successful logout no session carries the token, provided that
/// tokens were unique.
pub proof fn lemma_logout_ends_session(before: Map<i64, StoredNode>, after: Map<i64, StoredNode>, t: Seq<char>)
    requires
        tokens_unique(before),
        logged_out(before, after, t),
    ensures
        !has_session_token(after, t),
{
    if has_session_token(before, t) {
        let nid = choose|nid: i64| #[trigger] session_at(before, nid) matches Some(Ok(s))
            && s.id == t && after == before.remove(nid);
        lemma_remove_session_forgets_token(before, t, nid);
    }
}

/// The session that a login stored, as its contract states the store after
/// it, is found under its identity and by its token.
pub proof fn lemma_login_then_find(before: Map<i64, StoredNode>, s: SessionView)
    requires
        s.node_id is Some,
    ensures
        session_at(before.insert(s.node_id->Some_0, session_node(SessionView { node_id: None, ..s })), s.node_id->Some_0)
            == Some(Ok::<SessionView, DecodeError>(s)),
        has_session_token(before.insert(s.node_id->Some_0, session_node(SessionView { node_id: None, ..s })), s.id),
{
    lemma_add_then_find_session(before, SessionView { node_id: None, ..s }, s.node_id->Some_0);
}

/// Whether bcrypt accepts `password` for the bcrypt hash `hash`: the hash
/// carries its own salt and cost, so this depends on the two texts alone.
pub uninterp spec fn bcrypt_verifies(password: Seq<char>, hash: Seq<char>) -> bool;

/// Relies on `bcrypt::verify`: whether the password hashes to the stored
/// hash; a malformed hash (its error) accepts nothing.
#[verifier::external_body]
fn password_matches(password: &String, hash: &String) -> (r: bool)
    ensures
        r == bcrypt_verifies(password@, hash@),
{
    bcrypt::verify(password, hash).unwrap_or(false)
}

/// Why a request could not be authenticated.
#[derive(Clone, Copy, Debug, PartialEq, Eq, Structural)]
pub enum AuthError {
    /// The user name or the password is wrong; which of the two is not said.
    InvalidCredentials,
    /// The request carries no session, or one the store does not know.
    Unauthenticated,
    /// The store failed.
    Store(DbActionError),
}

/// Decides a login from the answer of the lookup by user name and from
/// whether the password was accepted for the user found: the identity of
/// the user to log in, or why not.
pub fn login_decision(found: Result<Option<User>, DbActionError>, accepted: bool) -> (r: Result<i64, AuthError>)
    ensures
        found matches Err(e) ==> r == Err::<i64, AuthError>(AuthError::Store(e)),
        found matches Ok(None) ==> r == Err::<i64, AuthError>(AuthError::InvalidCredentials),
        found matches Ok(Some(u)) ==> r == if accepted && u.id is Some {
            Ok::<i64, AuthError>(u.id->Some_0)
        } else {
            Err::<i64, AuthError>(AuthError::InvalidCredentials)
        },
{
    match found {
        Err(e) => Err(AuthError::Store(e)),
        Ok(None) => Err(AuthError::InvalidCredentials),
        Ok(Some(u)) => match u.id {
            Some(id) => if accepted { Ok(id) } else { Err(AuthError::InvalidCredentials) },
            None => Err(AuthError::InvalidCredentials),
        },
    }
}

/// The operations that request handlers use.
pub struct ApplicationLogic<C> {
    pub client: C,
    pub user_repo: UserRepository,
    pub session_repo: SessionRepository,
}

impl<C: GraphClient> ApplicationLogic<C> {
    /// Logic over the store behind `client`.
    pub fn new(client: C) -> (r: Self)
        ensures
            r.client == client,
    {
        ApplicationLogic { client, user_repo: UserRepository::new(), session_repo: SessionRepository::new() }
    }
    /// The user with identity `id`.
    pub fn get_user(&self, id: i64) -> (r: Result<Option<User>, DbActionError>)
        ensures
            r matches Ok(Some(u)) ==> user_at(self.client.graph(), id) == Some(Ok::<UserView, DecodeError>(u@)),
            r matches Ok(None) ==> user_at(self.client.graph(), id) is None,
    {
        self.user_repo.find_by_id(&self.client, id)
    }

    /// A user with user name `username`.
    pub fn find_user_by_username(&self, username: &String) -> (r: Result<Option<User>, DbActionError>)
        ensures
            r matches Ok(Some(u)) ==> u.id matches Some(id) && user_at(self.client.graph(), id) == Some(Ok::<UserView, DecodeError>(u@))
                && u.username@ == username@,
            r matches Ok(None) ==> !has_user_named(self.client.graph(), username@),
    {
        self.user_repo.find_user_by_username(&self.client, username)
    }

    /// Every user.
    pub fn get_all_users(&self) -> (r: Result<Vec<User>, DbActionError>)
        ensures
            r matches Ok(v) ==> {
                &&& forall|i: int| 0 <= i < v@.len() ==> (#[trigger] v@[i]).id is Some
                    && user_at(self.client.graph(), v@[i].id->Some_0) == Some(Ok::<UserView, DecodeError>(v@[i]@))
                &&& forall|id: i64| #[trigger] user_at(self.client.graph(), id) is Some
                    ==> exists|i: int| 0 <= i < v@.len() && (#[trigger] v@[i]).id == Some(id)
            },
    {
        self.user_repo.find_all(&self.client)
    }

    /// Stores a new user.
    pub fn add_user(&mut self, user: &User) -> (r: Result<User, DbActionError>)
        ensures
            r matches Ok(u) ==> u.id matches Some(id) && !old(self).client.graph().contains_key(id)
                && final(self).client.graph() == old(self).client.graph().insert(id, user_node(user@))
                && u@ == (UserView { id: Some(id), ..user@ }),
    {
        self.user_repo.add(&mut self.client, user)
    }

    /// A session with token `session_id`.
    pub fn get_session(&self, session_id: &String) -> (r: Result<Option<Session>, DbActionError>)
        ensures
            r matches Ok(Some(s)) ==> s.node_id matches Some(id) && session_at(self.client.graph(), id) == Some(Ok::<SessionView, DecodeError>(s@))
                && s.id@ == session_id@,
            r matches Ok(None) ==> !has_session_token(self.client.graph(), session_id@),
    {
        self.session_repo.find_session_by_session_id(&self.client, session_id)
    }

    /// Logs a user in: finds the user by name, checks the password against
    /// the stored bcrypt hash, and stores a new session for that user. An
    /// unknown user and a wrong password give the same error.
    pub fn login(&mut self, request: &LoginRequest) -> (r: Result<Session, AuthError>)
        ensures
            r matches Ok(s) ==> {
                &&& s.node_id matches Some(nid) && !old(self).client.graph().contains_key(nid)
                    && final(self).client.graph() == old(self).client.graph().insert(nid, session_node(SessionView { node_id: None, ..s@ }))
                &&& user_at(old(self).client.graph(), s.user) matches Some(Ok(u)) && u.username == request.username@
                    && request.password is Some && bcrypt_verifies(request.password->Some_0@, u.password_hash)
                &&& is_token(s.id@)
                &&& s.started == s.refreshed
            },
            r is Err ==> final(self).client.graph() == old(self).client.graph(),
            r matches Err(AuthError::Store(e)) ==> is_store_error(e) || e is Decode,
            r is Err ==> r == Err::<Session, AuthError>(AuthError::InvalidCredentials) || r matches Err(AuthError::Store(_)),
            r == Err::<Session, AuthError>(AuthError::InvalidCredentials) ==> request.password is None
                || !has_user_named(old(self).client.graph(), request.username@)
                || exists|id: i64| #[trigger] user_at(old(self).client.graph(), id) matches Some(Ok(u))
                    && u.username == request.username@
                    && !bcrypt_verifies(request.password->Some_0@, u.password_hash),
            request.password is None || !has_user_named(old(self).client.graph(), request.username@)
                ==> r is Err,
            !has_user_named(old(self).client.graph(), request.username@) ==> r == Err::<Session, AuthError>(AuthError::InvalidCredentials)
                || (r matches Err(AuthError::Store(e)) && is_store_error(e)),
            request.password is Some && has_user_named(old(self).client.graph(), request.username@)
                && (forall|id: i64| #[trigger] user_at(old(self).client.graph(), id) matches Some(Ok(u))
                    ==> (u.username == request.username@ ==> bcrypt_verifies(request.password->Some_0@, u.password_hash)))
                ==> r is Ok || r matches Err(AuthError::Store(_)),
    {
        let found = self.user_repo.find_user_by_username(&self.client, &request.username);
        let accepted = match (&found, &request.password) {
            (Ok(Some(u)), Some(p)) => password_matches(p, &u.password_hash),
            _ => false,
        };
        let uid = match login_decision(found, accepted) {
            Ok(id) => id,
            Err(e) => return Err(e),
        };
        let session = Session::new(uid);
        match self.session_repo.add(&mut self.client, &session) {
            Ok(s) => Ok(s),
            Err(e) => Err(AuthError::Store(e)),
        }
    }

    /// Ends the session that a lookup by token found: nothing to do where it
    /// found none, else the session is deleted; a failed lookup is handed on.
    pub fn end_session(&mut self, found: Result<Option<Session>, DbActionError>) -> (r: Result<(), DbActionError>)
        ensures
            found matches Err(e) ==> r == Err::<(), DbActionError>(e) && *final(self) == *old(self),
            found matches Ok(None) ==> r == Ok::<(), DbActionError>(()) && *final(self) == *old(self),
            found matches Ok(Some(s)) ==> {
                &&& s.node_id is None ==> r == Err::<(), DbActionError>(DbActionError::NoIdentity)
                    && *final(self) == *old(self)
                &&& r is Ok ==> (s.node_id matches Some(id) && final(self).client.graph() == if session_at(old(self).client.graph(), id) is Some {
                    old(self).client.graph().remove(id)
                } else {
                    old(self).client.graph()
                })
                &&& s.node_id is Some ==> (r matches Err(e) ==> is_store_error(e)
                    && final(self).client.graph() == old(self).client.graph())
            },
    {
        match found {
            Err(e) => Err(e),
            Ok(None) => Ok(()),
            Ok(Some(s)) => self.session_repo.delete(&mut self.client, &s),
        }
    }

    /// Ends the session with token `session_id`. Ending a session that does
    /// not exist succeeds and changes nothing.
    pub fn logout(&mut self, session_id: &String) -> (r: Result<(), DbActionError>)
        ensures
            r is Ok ==> logged_out(old(self).client.graph(), final(self).client.graph(), session_id@),
            r is Err ==> final(self).client.graph() == old(self).client.graph(),
            r matches Err(e) ==> is_store_error(e) || e is Decode,
            !has_session_token(old(self).client.graph(), session_id@) ==> final(self).client.graph() == old(self).client.graph()
                && (r == Ok::<(), DbActionError>(()) || (r matches Err(e) && is_store_error(e))),
    {
        let found = self.session_repo.find_session_by_session_id(&self.client, session_id);
        let ghost g = self.client.graph();
        let r = self.end_session(found);
        proof {
            if r is Ok && found is Ok && found->Ok_0 is Some {
                let nid = found->Ok_0->Some_0.node_id->Some_0;
                assert(session_at(g, nid) matches Some(Ok(x)) && x.id == session_id@);
            }
        }
        r
    }

    /// Resumes the session that a lookup by token found, refreshed at `now`,
    /// and writes the refresh back. The write is best effort: where it
    /// fails the session is still returned and the store is unchanged.
    pub fn resume_session(&mut self, found: Result<Option<Session>, DbActionError>, now: i64) -> (r: Result<Session, AuthError>)
        ensures
            found matches Err(e) ==> r == Err::<Session, AuthError>(AuthError::Store(e)) && *final(self) == *old(self),
            found matches Ok(None) ==> r == Err::<Session, AuthError>(AuthError::Unauthenticated) && *final(self) == *old(self),
            found matches Ok(Some(s0)) ==> {
                &&& r matches Ok(s) && s@ == refreshed_at(s0@, now)
                &&& final(self).client.graph() == old(self).client.graph()
                    || (s0.node_id matches Some(id) && session_at(old(self).client.graph(), id) is Some
                        && final(self).client.graph() == old(self).client.graph().insert(id, session_node(refreshed_at(s0@, now))))
            },
    {
        let mut session = match found {
            Err(e) => return Err(AuthError::Store(e)),
            Ok(None) => return Err(AuthError::Unauthenticated),
            Ok(Some(s)) => s,
        };
        session.refresh_at(now);
        let _ = self.session_repo.update(&mut self.client, &session);
        Ok(session)
    }

    /// The session that a request's session cookie names, refreshed and
    /// written back. A missing cookie and an unknown token are both
    /// unauthenticated.
    pub fn resolve_session(&mut self, cookie: Option<&String>) -> (r: Result<Session, AuthError>)
        ensures
            cookie is None ==> r == Err::<Session, AuthError>(AuthError::Unauthenticated)
                && *final(self) == *old(self),
            cookie matches Some(t) ==> (r == Err::<Session, AuthError>(AuthError::Unauthenticated)
                ==> !has_session_token(old(self).client.graph(), t@)),
            cookie matches Some(t) ==> (!has_session_token(old(self).client.graph(), t@)
                ==> r == Err::<Session, AuthError>(AuthError::Unauthenticated)
                    || (r matches Err(AuthError::Store(e)) && is_store_error(e))),
            cookie matches Some(t) ==> (has_session_token(old(self).client.graph(), t@)
                ==> r is Ok || r matches Err(AuthError::Store(_))),
            r is Err ==> final(self).client.graph() == old(self).client.graph(),
            r matches Ok(s) ==> {
                &&& cookie is Some && s.id@ == cookie->Some_0@
                &&& s.node_id is Some
                &&& session_at(old(self).client.graph(), s.node_id->Some_0) matches Some(Ok(before))
                    && s.started == before.started && s.refreshed >= before.refreshed
                    && s.user == before.user && s.id@ == before.id
                &&& final(self).client.graph() == old(self).client.graph()
                    || final(self).client.graph() == old(self).client.graph().insert(s.node_id->Some_0, session_node(s@))
            },
    {
        let token = match cookie {
            None => return Err(AuthError::Unauthenticated),
            Some(t) => t,
        };
        let found = self.session_repo.find_session_by_session_id(&self.client, token);
        let now = now_millis();
        self.resume_session(found, now)
    }
}

} // verus!
