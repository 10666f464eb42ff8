//! Repositories: typed reads and writes of one entity type over a graph client.
use vstd::prelude::*;
use crate::value::{Label, Node, Scalar, Value, bag_view, lookup_from};
use crate::client::{DbActionError, GraphClient, StoredNode, has_property, is_store_error, is_stored};
use crate::entity::{
    DecodeError, Session, SessionView, User, UserView, decode_session, decode_user, key_session_id,
    key_username, lemma_session_round_trip, lemma_user_round_trip, session_bag, user_bag,
};

verus! {

/// The user stored under `id`, read with its identity, if a user node is there.
pub open spec fn user_at(g: Map<i64, StoredNode>, id: i64) -> Option<Result<UserView, DecodeError>> {
    if g.contains_key(id) && g[id].label == Label::User {
        Some(match decode_user(Label::User, g[id].props) {
            Ok(u) => Ok(UserView { id: Some(id), ..u }),
            Err(e) => Err(e),
        })
    } else {
        None
    }
}

/// The session stored under `id`, read with its identity, if a session node is there.
pub open spec fn session_at(g: Map<i64, StoredNode>, id: i64) -> Option<Result<SessionView, DecodeError>> {
    if g.contains_key(id) && g[id].label == Label::Session {
        Some(match decode_session(Label::Session, g[id].props) {
            Ok(s) => Ok(SessionView { node_id: Some(id), ..s }),
            Err(e) => Err(e),
        })
    } else {
        None
    }
}

/// The node that stores user `u`.
pub open spec fn user_node(u: UserView) -> StoredNode {
    StoredNode { label: Label::User, props: user_bag(u) }
}

/// The node that stores session `s`.
pub open spec fn session_node(s: SessionView) -> StoredNode {
    StoredNode { label: Label::Session, props: session_bag(s) }
}

/// `g` holds a user node whose user name is `name`.
pub open spec fn has_user_named(g: Map<i64, StoredNode>, name: Seq<char>) -> bool {
    exists|id: i64| g.contains_key(id) && has_property(#[trigger] g[id], Label::User, key_username(), Scalar::Text(name))
}

/// `g` holds a session node whose token is `token`.
pub open spec fn has_session_token(g: Map<i64, StoredNode>, token: Seq<char>) -> bool {
    exists|id: i64| g.contains_key(id) && has_property(#[trigger] g[id], Label::Session, key_session_id(), Scalar::Text(token))
}

/// A user stored under a fresh identity is read back under that identity,
/// equal in every declared field.
pub proof fn lemma_add_then_find_user(g: Map<i64, StoredNode>, u: UserView, id: i64)
    ensures
        user_at(g.insert(id, user_node(u)), id) == Some(Ok::<UserView, DecodeError>(UserView { id: Some(id), ..u })),
{
    lemma_user_round_trip(u);
}

/// A session stored under a fresh identity is read back under that identity,
/// equal in every declared field, and its token is then known to the store.
pub proof fn lemma_add_then_find_session(g: Map<i64, StoredNode>, s: SessionView, id: i64)
    ensures
        session_at(g.insert(id, session_node(s)), id) == Some(Ok::<SessionView, DecodeError>(SessionView { node_id: Some(id), ..s })),
        has_session_token(g.insert(id, session_node(s)), s.id),
{
    lemma_session_round_trip(s);
    let g2 = g.insert(id, session_node(s));
    reveal_with_fuel(lookup_from, 2);
    assert(has_property(g2[id], Label::Session, key_session_id(), Scalar::Text(s.id)));
}

/// No two session nodes of `g` share a token.
pub open spec fn tokens_unique(g: Map<i64, StoredNode>) -> bool {
    forall|a: i64, b: i64, t: Seq<char>|
        g.contains_key(a) && g.contains_key(b)
        && #[trigger] has_property(g[a], Label::Session, key_session_id(), Scalar::Text(t))
        && #[trigger] has_property(g[b], Label::Session, key_session_id(), Scalar::Text(t))
        ==> a == b
}

/// Where tokens are unique, removing the session node that carries a token
/// leaves no session with that token.
pub proof fn lemma_remove_session_forgets_token(g: Map<i64, StoredNode>, t: Seq<char>, nid: i64)
    requires
        tokens_unique(g),
        session_at(g, nid) matches Some(Ok(s)) && s.id == t,
    ensures
        !has_session_token(g.remove(nid), t),
{
    assert(has_property(g[nid], Label::Session, key_session_id(), Scalar::Text(t)));
    let g2 = g.remove(nid);
    if has_session_token(g2, t) {
        let id = choose|id: i64| g2.contains_key(id) && has_property(#[trigger] g2[id], Label::Session, key_session_id(), Scalar::Text(t));
        assert(has_property(g[id], Label::Session, key_session_id(), Scalar::Text(t)));
    }
}

fn user_from_node(n: &Node) -> (r: Result<User, DbActionError>)
    requires
        n.label == Label::User,
    ensures
        match r {
            Ok(u) => decode_user(n.label, bag_view(n.props@)) == Ok::<UserView, DecodeError>(UserView { id: None, ..u@ })
                && u.id == Some(n.id),
            Err(e) => exists|d: DecodeError| e == DbActionError::Decode(d)
                && decode_user(n.label, bag_view(n.props@)) == Err::<UserView, DecodeError>(d),
        },
{
    match User::from_node(n.label, &n.props) {
        Ok(u) => Ok(User { id: Some(n.id), ..u }),
        Err(d) => Err(DbActionError::Decode(d)),
    }
}

fn session_from_node(n: &Node) -> (r: Result<Session, DbActionError>)
    ensures
        match r {
            Ok(s) => decode_session(n.label, bag_view(n.props@)) == Ok::<SessionView, DecodeError>(SessionView { node_id: None, ..s@ })
                && s.node_id == Some(n.id),
            Err(e) => exists|d: DecodeError| e == DbActionError::Decode(d)
                && decode_session(n.label, bag_view(n.props@)) == Err::<SessionView, DecodeError>(d),
        },
{
    match Session::from_node(n.label, &n.props) {
        Ok(s) => Ok(Session { node_id: Some(n.id), ..s }),
        Err(d) => Err(DbActionError::Decode(d)),
    }
}

/// Reads and writes users.
pub struct UserRepository {}

impl UserRepository {
    pub fn new() -> (r: UserRepository) {
        UserRepository {}
    }

    /// The user with identity `id`; `None` where no user has it.
    pub fn find_by_id<C: GraphClient>(&self, client: &C, id: i64) -> (r: Result<Option<User>, DbActionError>)
        ensures
            r matches Ok(Some(u)) ==> user_at(client.graph(), id) == Some(Ok::<UserView, DecodeError>(u@)),
            r matches Ok(None) ==> user_at(client.graph(), id) is None,
    {
        match client.fetch_by_id(Label::User, id) {
            Err(e) => Err(e),
            Ok(None) => Ok(None),
            Ok(Some(n)) => match user_from_node(&n) {
                Ok(u) => Ok(Some(u)),
                Err(e) => Err(e),
            },
        }
    }

    /// A user whose user name is `username`; `None` where there is none.
    pub fn find_user_by_username<C: GraphClient>(&self, client: &C, username: &String) -> (r: Result<Option<User>, DbActionError>)
        ensures
            r matches Ok(Some(u)) ==> u.id matches Some(id) && user_at(client.graph(), id) == Some(Ok::<UserView, DecodeError>(u@))
                && u.username@ == username@,
            r matches Ok(None) ==> !has_user_named(client.graph(), username@),
            !has_user_named(client.graph(), username@) ==> r == Ok::<Option<User>, DbActionError>(None)
                || (r matches Err(e) && is_store_error(e)),
            r matches Err(e) ==> is_store_error(e) || e is Decode,
    {
        proof {
            reveal_strlit("username");
            assert("username"@ =~= key_username());
        }
        let key = String::from_str("username");
        let value = Value::Text(username.clone());
        let nodes = match client.fetch_by_property(Label::User, &key, &value) {
            Err(e) => return Err(e),
            Ok(v) => v,
        };
        if nodes.len() == 0 {
            proof {
                if has_user_named(client.graph(), username@) {
                    let id = choose|id: i64| client.graph().contains_key(id)
                        && has_property(#[trigger] client.graph()[id], Label::User, key_username(), Scalar::Text(username@));
                    assert(exists|i: int| 0 <= i < nodes@.len() && (#[trigger] nodes@[i]).id == id);
                }
            }
            return Ok(None);
        }
        let n = &nodes[0];
        assert(is_stored(client.graph(), nodes@[0]));
        assert(has_property(client.graph()[nodes@[0].id], Label::User, key_username(), Scalar::Text(username@)));
        match user_from_node(n) {
            Ok(u) => Ok(Some(u)),
            Err(e) => Err(e),
        }
    }

    /// Every user in the store.
    pub fn find_all<C: GraphClient>(&self, client: &C) -> (r: Result<Vec<User>, DbActionError>)
        ensures
            r matches Ok(v) ==> {
                &&& forall|i: int| 0 <= i < v@.len() ==> (#[trigger] v@[i]).id is Some
                    && user_at(client.graph(), v@[i].id->Some_0) == Some(Ok::<UserView, DecodeError>(v@[i]@))
                &&& forall|id: i64| #[trigger] user_at(client.graph(), id) is Some
                    ==> exists|i: int| 0 <= i < v@.len() && (#[trigger] v@[i]).id == Some(id)
            },
    {
        let nodes = match client.fetch_all(Label::User) {
            Err(e) => return Err(e),
            Ok(v) => v,
        };
        let mut out: Vec<User> = Vec::new();
        let mut i: usize = 0;
        while i < nodes.len()
            invariant
                i <= nodes@.len(),
                out@.len() == i,
                forall|k: int| 0 <= k < nodes@.len() ==> is_stored(client.graph(), #[trigger] nodes@[k])
                    && nodes@[k].label == Label::User,
                forall|k: int| 0 <= k < i ==> (#[trigger] out@[k]).id == Some(nodes@[k].id)
                    && user_at(client.graph(), nodes@[k].id) == Some(Ok::<UserView, DecodeError>(out@[k]@)),
            decreases nodes.len() - i,
        {
            assert(is_stored(client.graph(), nodes@[i as int]));
            match user_from_node(&nodes[i]) {
                Ok(u) => out.push(u),
                Err(e) => return Err(e),
            }
            i = i + 1;
        }
        assert forall|id: i64| #[trigger] user_at(client.graph(), id) is Some
            implies exists|k: int| 0 <= k < out@.len() && (#[trigger] out@[k]).id == Some(id) by {
            let k = choose|k: int| 0 <= k < nodes@.len() && (#[trigger] nodes@[k]).id == id;
            assert(out@[k].id == Some(id));
        }
        Ok(out)
    }

    /// Stores a new user and returns it with the identity the store gave it.
    pub fn add<C: GraphClient>(&self, client: &mut C, user: &User) -> (r: Result<User, DbActionError>)
        ensures
            r matches Ok(u) ==> u.id matches Some(id) && !old(client).graph().contains_key(id)
                && final(client).graph() == old(client).graph().insert(id, user_node(user@))
                && u@ == (UserView { id: Some(id), ..user@ }),
            r matches Err(e) ==> is_store_error(e) && final(client).graph() == old(client).graph(),
    {
        let bag = user.to_property_bag();
        match client.create(Label::User, &bag) {
            Err(e) => Err(e),
            Ok(n) => Ok(User {
                id: Some(n.id),
                username: user.username.clone(),
                display_name: user.display_name.clone(),
                password_hash: user.password_hash.clone(),
                is_admin: user.is_admin,
            }),
        }
    }
}

/// Reads and writes sessions.
pub struct SessionRepository {}

/// The session that a lookup's answer names: the first node it returned,
/// read with its identity; `None` where it returned no node.
pub open spec fn first_session_of(v: Seq<Node>) -> Option<Result<SessionView, DecodeError>> {
    if v.len() == 0 {
        None
    } else {
        Some(match decode_session(v[0].label, bag_view(v[0].props@)) {
            Ok(x) => Ok(SessionView { node_id: Some(v[0].id), ..x }),
            Err(d) => Err(d),
        })
    }
}

impl SessionRepository {
    pub fn new() -> (r: SessionRepository) {
        SessionRepository {}
    }

    /// Reads the store's answer to a lookup by token: its error as it is, no
    /// session where no node came back, else the first node as a session.
    pub fn first_session(found: Result<Vec<Node>, DbActionError>) -> (r: Result<Option<Session>, DbActionError>)
        ensures
            found matches Err(e) ==> r == Err::<Option<Session>, DbActionError>(e),
            found matches Ok(v) ==> match first_session_of(v@) {
                None => r == Ok::<Option<Session>, DbActionError>(None),
                Some(Ok(x)) => r matches Ok(Some(s)) && s@ == x,
                Some(Err(d)) => r == Err::<Option<Session>, DbActionError>(DbActionError::Decode(d)),
            },
    {
        let nodes = match found {
            Err(e) => return Err(e),
            Ok(v) => v,
        };
        if nodes.len() == 0 {
            return Ok(None);
        }
        match session_from_node(&nodes[0]) {
            Ok(s) => Ok(Some(s)),
            Err(e) => Err(e),
        }
    }

    /// A session whose token is `session_id`; `None` where there is none.
    pub fn find_session_by_session_id<C: GraphClient>(&self, client: &C, session_id: &String) -> (r: Result<Option<Session>, DbActionError>)
        ensures
            r matches Ok(Some(s)) ==> s.node_id matches Some(id) && session_at(client.graph(), id) == Some(Ok::<SessionView, DecodeError>(s@))
                && s.id@ == session_id@,
            r matches Ok(None) ==> !has_session_token(client.graph(), session_id@),
            !has_session_token(client.graph(), session_id@) ==> r == Ok::<Option<Session>, DbActionError>(None)
                || (r matches Err(e) && is_store_error(e)),
            has_session_token(client.graph(), session_id@) ==> r is Ok ==> r matches Ok(Some(_)),
            r matches Err(e) ==> is_store_error(e) || e is Decode,
    {
        proof {
            reveal_strlit("session_id");
            assert("session_id"@ =~= key_session_id());
        }
        let key = String::from_str("session_id");
        let value = Value::Text(session_id.clone());
        let found = client.fetch_by_property(Label::Session, &key, &value);
        proof {
            if found is Ok {
                let nodes = found->Ok_0;
                if nodes@.len() == 0 {
                    if has_session_token(client.graph(), session_id@) {
                        let id = choose|id: i64| client.graph().contains_key(id)
                            && has_property(#[trigger] client.graph()[id], Label::Session, key_session_id(), Scalar::Text(session_id@));
                        assert(exists|i: int| 0 <= i < nodes@.len() && (#[trigger] nodes@[i]).id == id);
                    }
                } else {
                    assert(is_stored(client.graph(), nodes@[0]));
                    assert(has_property(client.graph()[nodes@[0].id], Label::Session, key_session_id(), Scalar::Text(session_id@)));
                }
            }
        }
        SessionRepository::first_session(found)
    }

    /// Reads the store's answer to a create: its error as it is, else the
    /// session with the identity the store gave it.
    pub fn stored_session(session: &Session, created: Result<Node, DbActionError>) -> (r: Result<Session, DbActionError>)
        ensures
            created matches Err(e) ==> r == Err::<Session, DbActionError>(e),
            created matches Ok(n) ==> r matches Ok(s) && s@ == (SessionView { node_id: Some(n.id), ..session@ }),
    {
        match created {
            Err(e) => Err(e),
            Ok(n) => Ok(Session {
                node_id: Some(n.id),
                id: session.id.clone(),
                user: session.user,
                started: session.started,
                refreshed: session.refreshed,
            }),
        }
    }

    /// Stores a new session and returns it with the identity the store gave it.
    pub fn add<C: GraphClient>(&self, client: &mut C, session: &Session) -> (r: Result<Session, DbActionError>)
        ensures
            r matches Ok(s) ==> s.node_id matches Some(id) && !old(client).graph().contains_key(id)
                && final(client).graph() == old(client).graph().insert(id, session_node(session@))
                && s@ == (SessionView { node_id: Some(id), ..session@ }),
            r matches Err(e) ==> is_store_error(e) && final(client).graph() == old(client).graph(),
    {
        let bag = session.to_property_bag();
        let created = client.create(Label::Session, &bag);
        SessionRepository::stored_session(session, created)
    }

    /// Reads the store's answer to an update: its error as it is, `NotFound`
    /// where no session node had the identity, else the session as written.
    pub fn updated_session(session: &Session, answer: Result<Option<Node>, DbActionError>) -> (r: Result<Session, DbActionError>)
        ensures
            answer matches Err(e) ==> r == Err::<Session, DbActionError>(e),
            answer matches Ok(None) ==> r == Err::<Session, DbActionError>(DbActionError::NotFound),
            answer matches Ok(Some(_)) ==> r matches Ok(s) && s@ == session@,
    {
        match answer {
            Err(e) => Err(e),
            Ok(None) => Err(DbActionError::NotFound),
            Ok(Some(_)) => Ok(Session {
                node_id: session.node_id,
                id: session.id.clone(),
                user: session.user,
                started: session.started,
                refreshed: session.refreshed,
            }),
        }
    }

    /// Writes a stored session's current values. A session without identity
    /// was never stored: that fails before the store is asked.
    pub fn update<C: GraphClient>(&self, client: &mut C, session: &Session) -> (r: Result<Session, DbActionError>)
        ensures
            session.node_id is None ==> r == Err::<Session, DbActionError>(DbActionError::NoIdentity)
                && *final(client) == *old(client),
            r matches Ok(s) ==> session.node_id matches Some(id)
                && session_at(old(client).graph(), id) is Some
                && final(client).graph() == old(client).graph().insert(id, session_node(session@))
                && s@ == session@,
            r == Err::<Session, DbActionError>(DbActionError::NotFound) ==> session_at(old(client).graph(), session.node_id->Some_0) is None,
            session.node_id is Some ==> (r matches Err(e) ==> (is_store_error(e) || e is NotFound)
                && final(client).graph() == old(client).graph()),
    {
        let id = match session.node_id {
            None => return Err(DbActionError::NoIdentity),
            Some(id) => id,
        };
        let bag = session.to_property_bag();
        let answer = client.replace_properties(Label::Session, id, &bag);
        SessionRepository::updated_session(session, answer)
    }

    /// Deletes a stored session. A session without identity was never
    /// stored: that fails before the store is asked.
    pub fn delete<C: GraphClient>(&self, client: &mut C, session: &Session) -> (r: Result<(), DbActionError>)
        ensures
            session.node_id is None ==> r == Err::<(), DbActionError>(DbActionError::NoIdentity)
                && *final(client) == *old(client),
            r is Ok ==> (session.node_id matches Some(id) && final(client).graph() == if session_at(old(client).graph(), id) is Some {
                old(client).graph().remove(id)
            } else {
                old(client).graph()
            }),
            session.node_id is Some ==> (r matches Err(e) ==> is_store_error(e)
                && final(client).graph() == old(client).graph()),
    {
        match session.node_id {
            None => Err(DbActionError::NoIdentity),
            Some(id) => client.delete(Label::Session, id),
        }
    }
}

} // verus!
