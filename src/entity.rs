//! The persisted entities and their mapping to and from property bags.
use vstd::prelude::*;
use crate::value::{
    Label, Property, Scalar, Value, bag_view, lookup, lookup_from, find_property,
    text_property, int_property, bool_property,
};

verus! {

/// Why a node could not be read as an entity.
#[derive(Clone, Copy, Debug, PartialEq, Eq, Structural)]
pub enum DecodeError {
    /// The node carries the label of another entity type.
    WrongLabel,
    /// A required property is absent.
    MissingProperty,
    /// A required property holds a scalar of another kind.
    WrongKind,
}

pub open spec fn key_username() -> Seq<char> { seq!['u', 's', 'e', 'r', 'n', 'a', 'm', 'e'] }
pub open spec fn key_display_name() -> Seq<char> {
    seq!['d', 'i', 's', 'p', 'l', 'a', 'y', '_', 'n', 'a', 'm', 'e']
}
pub open spec fn key_password_hash() -> Seq<char> {
    seq!['p', 'a', 's', 's', 'w', 'o', 'r', 'd', '_', 'h', 'a', 's', 'h']
}
pub open spec fn key_admin() -> Seq<char> { seq!['a', 'd', 'm', 'i', 'n'] }
pub open spec fn key_session_id() -> Seq<char> {
    seq!['s', 'e', 's', 's', 'i', 'o', 'n', '_', 'i', 'd']
}
pub open spec fn key_user() -> Seq<char> { seq!['u', 's', 'e', 'r'] }
pub open spec fn key_started() -> Seq<char> { seq!['s', 't', 'a', 'r', 't', 'e', 'd'] }
pub open spec fn key_refreshed() -> Seq<char> {
    seq!['r', 'e', 'f', 'r', 'e', 's', 'h', 'e', 'd']
}

/// The text that a bag holds under `key`.
pub open spec fn text_field(b: Seq<(Seq<char>, Scalar)>, key: Seq<char>) -> Result<Seq<char>, DecodeError> {
    match lookup(b, key) {
        None => Err(DecodeError::MissingProperty),
        Some(Scalar::Text(s)) => Ok(s),
        Some(_) => Err(DecodeError::WrongKind),
    }
}

/// The integer that a bag holds under `key`.
pub open spec fn int_field(b: Seq<(Seq<char>, Scalar)>, key: Seq<char>) -> Result<i64, DecodeError> {
    match lookup(b, key) {
        None => Err(DecodeError::MissingProperty),
        Some(Scalar::Int(i)) => Ok(i),
        Some(_) => Err(DecodeError::WrongKind),
    }
}

/// The flag that a bag holds under `key`.
pub open spec fn bool_field(b: Seq<(Seq<char>, Scalar)>, key: Seq<char>) -> Result<bool, DecodeError> {
    match lookup(b, key) {
        None => Err(DecodeError::MissingProperty),
        Some(Scalar::Bool(x)) => Ok(x),
        Some(_) => Err(DecodeError::WrongKind),
    }
}

fn get_text(bag: &Vec<Property>, key: &str) -> (r: Result<String, DecodeError>)
    ensures
        match r {
            Ok(s) => text_field(bag_view(bag@), key@) == Ok::<Seq<char>, DecodeError>(s@),
            Err(e) => text_field(bag_view(bag@), key@) == Err::<Seq<char>, DecodeError>(e),
        },
{
    let k = String::from_str(key);
    match find_property(bag, &k) {
        None => Err(DecodeError::MissingProperty),
        Some(Value::Text(s)) => Ok(s.clone()),
        Some(_) => Err(DecodeError::WrongKind),
    }
}

fn get_int(bag: &Vec<Property>, key: &str) -> (r: Result<i64, DecodeError>)
    ensures
        r == int_field(bag_view(bag@), key@),
{
    let k = String::from_str(key);
    match find_property(bag, &k) {
        None => Err(DecodeError::MissingProperty),
        Some(Value::Int(i)) => Ok(*i),
        Some(_) => Err(DecodeError::WrongKind),
    }
}

fn get_bool(bag: &Vec<Property>, key: &str) -> (r: Result<bool, DecodeError>)
    ensures
        r == bool_field(bag_view(bag@), key@),
{
    let k = String::from_str(key);
    match find_property(bag, &k) {
        None => Err(DecodeError::MissingProperty),
        Some(Value::Bool(b)) => Ok(*b),
        Some(_) => Err(DecodeError::WrongKind),
    }
}

/// What a user is: every declared field.
pub struct UserView {
    pub id: Option<i64>,
    pub username: Seq<char>,
    pub display_name: Seq<char>,
    pub password_hash: Seq<char>,
    pub is_admin: bool,
}

/// A user account. The password field always holds a hash of the secret.
#[derive(Clone, Debug)]
pub struct User {
    pub id: Option<i64>,
    pub username: String,
    pub display_name: String,
    pub password_hash: String,
    pub is_admin: bool,
}

impl View for User {
    type V = UserView;

    open spec fn view(&self) -> UserView {
        UserView {
            id: self.id,
            username: self.username@,
            display_name: self.display_name@,
            password_hash: self.password_hash@,
            is_admin: self.is_admin,
        }
    }
}

/// The property bag of a user.
pub open spec fn user_bag(u: UserView) -> Seq<(Seq<char>, Scalar)> {
    seq![
        (key_username(), Scalar::Text(u.username)),
        (key_display_name(), Scalar::Text(u.display_name)),
        (key_password_hash(), Scalar::Text(u.password_hash)),
        (key_admin(), Scalar::Bool(u.is_admin)),
    ]
}

/// The user that a node with this label and bag stands for, identity aside.
pub open spec fn decode_user(label: Label, b: Seq<(Seq<char>, Scalar)>) -> Result<UserView, DecodeError> {
    if label != Label::User {
        Err(DecodeError::WrongLabel)
    } else {
        match text_field(b, key_username()) {
            Err(e) => Err(e),
            Ok(username) => match text_field(b, key_display_name()) {
                Err(e) => Err(e),
                Ok(display_name) => match text_field(b, key_password_hash()) {
                    Err(e) => Err(e),
                    Ok(password_hash) => match bool_field(b, key_admin()) {
                        Err(e) => Err(e),
                        Ok(is_admin) => Ok(UserView { id: None, username, display_name, password_hash, is_admin }),
                    },
                },
            },
        }
    }
}

impl User {
    pub fn label() -> (r: Label)
        ensures
            r == Label::User,
    {
        Label::User
    }

    pub fn get_id(&self) -> (r: Option<i64>)
        ensures
            r == self.id,
    {
        self.id
    }

    /// The user's properties; the identity is not one of them.
    pub fn to_property_bag(&self) -> (r: Vec<Property>)
        ensures
            bag_view(r@) == user_bag(self@),
    {
        proof {
            reveal_strlit("username");
            reveal_strlit("display_name");
            reveal_strlit("password_hash");
            reveal_strlit("admin");
            assert("username"@ =~= key_username());
            assert("display_name"@ =~= key_display_name());
            assert("password_hash"@ =~= key_password_hash());
            assert("admin"@ =~= key_admin());
        }
        let mut r: Vec<Property> = Vec::new();
        r.push(text_property("username", &self.username));
        r.push(text_property("display_name", &self.display_name));
        r.push(text_property("password_hash", &self.password_hash));
        r.push(bool_property("admin", self.is_admin));
        assert(bag_view(r@) =~= user_bag(self@));
        r
    }

    /// Reads a user from a node's label and properties. The identity is left
    /// absent: the caller copies it from the node.
    pub fn from_node(label: Label, bag: &Vec<Property>) -> (r: Result<User, DecodeError>)
        ensures
            match r {
                Ok(u) => decode_user(label, bag_view(bag@)) == Ok::<UserView, DecodeError>(u@),
                Err(e) => decode_user(label, bag_view(bag@)) == Err::<UserView, DecodeError>(e),
            },
    {
        proof {
            reveal_strlit("username");
            reveal_strlit("display_name");
            reveal_strlit("password_hash");
            reveal_strlit("admin");
            assert("username"@ =~= key_username());
            assert("display_name"@ =~= key_display_name());
            assert("password_hash"@ =~= key_password_hash());
            assert("admin"@ =~= key_admin());
        }
        if label != Label::User {
            return Err(DecodeError::WrongLabel);
        }
        let username = match get_text(bag, "username") {
            Ok(v) => v,
            Err(e) => return Err(e),
        };
        let display_name = match get_text(bag, "display_name") {
            Ok(v) => v,
            Err(e) => return Err(e),
        };
        let password_hash = match get_text(bag, "password_hash") {
            Ok(v) => v,
            Err(e) => return Err(e),
        };
        let is_admin = match get_bool(bag, "admin") {
            Ok(v) => v,
            Err(e) => return Err(e),
        };
        Ok(User { id: None, username, display_name, password_hash, is_admin })
    }
}

/// Decoding the bag of a user gives the user back, without its identity.
pub proof fn lemma_user_round_trip(u: UserView)
    ensures
        decode_user(Label::User, user_bag(u)) == Ok::<UserView, DecodeError>(UserView { id: None, ..u }),
{
    let b = user_bag(u);
    reveal_with_fuel(lookup_from, 5);
    assert(key_username() != key_display_name());
    assert(lookup(b, key_username()) == Some(Scalar::Text(u.username)));
    assert(lookup(b, key_display_name()) == Some(Scalar::Text(u.display_name)));
    assert(lookup(b, key_password_hash()) == Some(Scalar::Text(u.password_hash)));
    assert(lookup(b, key_admin()) == Some(Scalar::Bool(u.is_admin)));
}

/// What a session is: every declared field.
pub struct SessionView {
    pub node_id: Option<i64>,
    pub id: Seq<char>,
    pub user: i64,
    pub started: i64,
    pub refreshed: i64,
}

/// A server-side login session. `id` is its opaque token; `node_id` is the
/// identity that the store gave its node; `user` is the identity of the user
/// it belongs to. Timestamps are milliseconds since the Unix epoch.
#[derive(Clone, Debug)]
pub struct Session {
    pub node_id: Option<i64>,
    pub id: String,
    pub user: i64,
    pub started: i64,
    pub refreshed: i64,
}

impl View for Session {
    type V = SessionView;

    open spec fn view(&self) -> SessionView {
        SessionView {
            node_id: self.node_id,
            id: self.id@,
            user: self.user,
            started: self.started,
            refreshed: self.refreshed,
        }
    }
}

/// The property bag of a session.
pub open spec fn session_bag(s: SessionView) -> Seq<(Seq<char>, Scalar)> {
    seq![
        (key_session_id(), Scalar::Text(s.id)),
        (key_user(), Scalar::Int(s.user)),
        (key_started(), Scalar::Int(s.started)),
        (key_refreshed(), Scalar::Int(s.refreshed)),
    ]
}

/// The session that a node with this label and bag stands for, identity aside.
pub open spec fn decode_session(label: Label, b: Seq<(Seq<char>, Scalar)>) -> Result<SessionView, DecodeError> {
    if label != Label::Session {
        Err(DecodeError::WrongLabel)
    } else {
        match text_field(b, key_session_id()) {
            Err(e) => Err(e),
            Ok(id) => match int_field(b, key_user()) {
                Err(e) => Err(e),
                Ok(user) => match int_field(b, key_started()) {
                    Err(e) => Err(e),
                    Ok(started) => match int_field(b, key_refreshed()) {
                        Err(e) => Err(e),
                        Ok(refreshed) => Ok(SessionView { node_id: None, id, user, started, refreshed }),
                    },
                },
            },
        }
    }
}

impl Session {
    pub fn label() -> (r: Label)
        ensures
            r == Label::Session,
    {
        Label::Session
    }

    pub fn get_id(&self) -> (r: Option<i64>)
        ensures
            r == self.node_id,
    {
        self.node_id
    }

    /// The session's properties; the store identity is not one of them.
    pub fn to_property_bag(&self) -> (r: Vec<Property>)
        ensures
            bag_view(r@) == session_bag(self@),
    {
        proof {
            reveal_strlit("session_id");
            reveal_strlit("user");
            reveal_strlit("started");
            reveal_strlit("refreshed");
            assert("session_id"@ =~= key_session_id());
            assert("user"@ =~= key_user());
            assert("started"@ =~= key_started());
            assert("refreshed"@ =~= key_refreshed());
        }
        let mut r: Vec<Property> = Vec::new();
        r.push(text_property("session_id", &self.id));
        r.push(int_property("user", self.user));
        r.push(int_property("started", self.started));
        r.push(int_property("refreshed", self.refreshed));
        assert(bag_view(r@) =~= session_bag(self@));
        r
    }

    /// Reads a session from a node's label and properties. The store identity
    /// is left absent: the caller copies it from the node.
    pub fn from_node(label: Label, bag: &Vec<Property>) -> (r: Result<Session, DecodeError>)
        ensures
            match r {
                Ok(s) => decode_session(label, bag_view(bag@)) == Ok::<SessionView, DecodeError>(s@),
                Err(e) => decode_session(label, bag_view(bag@)) == Err::<SessionView, DecodeError>(e),
            },
    {
        proof {
            reveal_strlit("session_id");
            reveal_strlit("user");
            reveal_strlit("started");
            reveal_strlit("refreshed");
            assert("session_id"@ =~= key_session_id());
            assert("user"@ =~= key_user());
            assert("started"@ =~= key_started());
            assert("refreshed"@ =~= key_refreshed());
        }
        if label != Label::Session {
            return Err(DecodeError::WrongLabel);
        }
        let id = match get_text(bag, "session_id") {
            Ok(v) => v,
            Err(e) => return Err(e),
        };
        let user = match get_int(bag, "user") {
            Ok(v) => v,
            Err(e) => return Err(e),
        };
        let started = match get_int(bag, "started") {
            Ok(v) => v,
            Err(e) => return Err(e),
        };
        let refreshed = match get_int(bag, "refreshed") {
            Ok(v) => v,
            Err(e) => return Err(e),
        };
        Ok(Session { node_id: None, id, user, started, refreshed })
    }
}

/// Decoding the bag of a session gives the session back, without its store identity.
pub proof fn lemma_session_round_trip(s: SessionView)
    ensures
        decode_session(Label::Session, session_bag(s)) == Ok::<SessionView, DecodeError>(SessionView { node_id: None, ..s }),
{
    let b = session_bag(s);
    reveal_with_fuel(lookup_from, 5);
    assert(lookup(b, key_session_id()) == Some(Scalar::Text(s.id)));
    assert(lookup(b, key_user()) == Some(Scalar::Int(s.user)));
    assert(lookup(b, key_started()) == Some(Scalar::Int(s.started)));
    assert(lookup(b, key_refreshed()) == Some(Scalar::Int(s.refreshed)));
}

pub open spec fn key_name() -> Seq<char> { seq!['n', 'a', 'm', 'e'] }

/// What a team is: every declared field. Memberships are edges of the
/// graph, not properties of the node.
pub struct TeamView {
    pub id: Option<i64>,
    pub name: Seq<char>,
}

/// A team of users.
#[derive(Clone, Debug)]
pub struct Team {
    pub id: Option<i64>,
    pub name: String,
}

impl View for Team {
    type V = TeamView;

    open spec fn view(&self) -> TeamView {
        TeamView { id: self.id, name: self.name@ }
    }
}

/// The property bag of a team.
pub open spec fn team_bag(t: TeamView) -> Seq<(Seq<char>, Scalar)> {
    seq![(key_name(), Scalar::Text(t.name))]
}

/// The team that a node with this label and bag stands for, identity aside.
pub open spec fn decode_team(label: Label, b: Seq<(Seq<char>, Scalar)>) -> Result<TeamView, DecodeError> {
    if label != Label::Team {
        Err(DecodeError::WrongLabel)
    } else {
        match text_field(b, key_name()) {
            Err(e) => Err(e),
            Ok(name) => Ok(TeamView { id: None, name }),
        }
    }
}

impl Team {
    pub fn label() -> (r: Label)
        ensures
            r == Label::Team,
    {
        Label::Team
    }

    pub fn get_id(&self) -> (r: Option<i64>)
        ensures
            r == self.id,
    {
        self.id
    }

    /// The team's properties; the identity is not one of them.
    pub fn to_property_bag(&self) -> (r: Vec<Property>)
        ensures
            bag_view(r@) == team_bag(self@),
    {
        proof {
            reveal_strlit("name");
            assert("name"@ =~= key_name());
        }
        let mut r: Vec<Property> = Vec::new();
        r.push(text_property("name", &self.name));
        assert(bag_view(r@) =~= team_bag(self@));
        r
    }

    /// Reads a team from a node's label and properties. The identity is left
    /// absent: the caller copies it from the node.
    pub fn from_node(label: Label, bag: &Vec<Property>) -> (r: Result<Team, DecodeError>)
        ensures
            match r {
                Ok(t) => decode_team(label, bag_view(bag@)) == Ok::<TeamView, DecodeError>(t@),
                Err(e) => decode_team(label, bag_view(bag@)) == Err::<TeamView, DecodeError>(e),
            },
    {
        proof {
            reveal_strlit("name");
            assert("name"@ =~= key_name());
        }
        if label != Label::Team {
            return Err(DecodeError::WrongLabel);
        }
        match get_text(bag, "name") {
            Ok(name) => Ok(Team { id: None, name }),
            Err(e) => Err(e),
        }
    }
}

/// Decoding the bag of a team gives the team back, without its identity.
pub proof fn lemma_team_round_trip(t: TeamView)
    ensures
        decode_team(Label::Team, team_bag(t)) == Ok::<TeamView, DecodeError>(TeamView { id: None, ..t }),
{
    reveal_with_fuel(lookup_from, 2);
    assert(lookup(team_bag(t), key_name()) == Some(Scalar::Text(t.name)));
}

} // verus!
