use taskscore::entity::{DecodeError, Session, Team, User};
use taskscore::value::{Label, Property, Value, int_property, text_property};

fn alice() -> User {
    User {
        id: Some(4),
        username: "alice".to_string(),
        display_name: "Alice A.".to_string(),
        password_hash: "hashed:secret".to_string(),
        is_admin: true,
    }
}

#[test]
fn user_round_trip() {
    let u = alice();
    let back = User::from_node(Label::User, &u.to_property_bag()).unwrap();
    assert_eq!(back.id, None);
    assert_eq!(back.username, u.username);
    assert_eq!(back.display_name, u.display_name);
    assert_eq!(back.password_hash, u.password_hash);
    assert_eq!(back.is_admin, u.is_admin);
}

#[test]
fn session_round_trip() {
    let s = Session { node_id: Some(9), id: "abc".to_string(), user: 4, started: 10, refreshed: 20 };
    let back = Session::from_node(Label::Session, &s.to_property_bag()).unwrap();
    assert_eq!(back.node_id, None);
    assert_eq!(back.id, "abc");
    assert_eq!((back.user, back.started, back.refreshed), (4, 10, 20));
}

#[test]
fn user_bag_keys() {
    let bag = alice().to_property_bag();
    let keys: Vec<&str> = bag.iter().map(|p| p.key.as_str()).collect();
    assert_eq!(keys, vec!["username", "display_name", "password_hash", "admin"]);
    assert!(matches!(&bag[0].value, Value::Text(s) if s == "alice"));
    assert!(matches!(&bag[3].value, Value::Bool(true)));
}

#[test]
fn wrong_label_is_refused() {
    let bag = alice().to_property_bag();
    assert_eq!(User::from_node(Label::Session, &bag).unwrap_err(), DecodeError::WrongLabel);
    assert_eq!(Session::from_node(Label::User, &bag).unwrap_err(), DecodeError::WrongLabel);
}

#[test]
fn missing_property_is_refused() {
    let mut bag = alice().to_property_bag();
    bag.remove(1);
    assert_eq!(User::from_node(Label::User, &bag).unwrap_err(), DecodeError::MissingProperty);
}

#[test]
fn wrong_kind_is_refused() {
    let mut bag = alice().to_property_bag();
    bag[3] = int_property("admin", 1);
    assert_eq!(User::from_node(Label::User, &bag).unwrap_err(), DecodeError::WrongKind);
    let bag: Vec<Property> = vec![
        text_property("session_id", &"t".to_string()),
        text_property("user", &"4".to_string()),
        int_property("started", 1),
        int_property("refreshed", 1),
    ];
    assert_eq!(Session::from_node(Label::Session, &bag).unwrap_err(), DecodeError::WrongKind);
}

#[test]
fn first_entry_of_a_key_wins() {
    let mut bag = alice().to_property_bag();
    bag.push(text_property("username", &"mallory".to_string()));
    assert_eq!(User::from_node(Label::User, &bag).unwrap().username, "alice");
}

#[test]
fn label_names() {
    assert_eq!(Label::User.name(), "User");
    assert_eq!(Label::Session.name(), "Session");
    assert_eq!(Label::Team.name(), "Team");
    assert_eq!(Label::Task.name(), "Task");
}

#[test]
fn team_round_trip() {
    let t = Team { id: Some(2), name: "Red".to_string() };
    let bag = t.to_property_bag();
    assert_eq!(bag.len(), 1);
    assert_eq!(bag[0].key, "name");
    let back = Team::from_node(Label::Team, &bag).unwrap();
    assert_eq!(back.id, None);
    assert_eq!(back.name, "Red");
    assert_eq!(Team::from_node(Label::User, &bag).unwrap_err(), DecodeError::WrongLabel);
    assert_eq!(Team::from_node(Label::Team, &vec![]).unwrap_err(), DecodeError::MissingProperty);
}
