//! Scalar property values, property bags and graph nodes.
use vstd::prelude::*;

verus! {

/// What a scalar property value means.
pub enum Scalar {
    Text(Seq<char>),
    Int(i64),
    Bool(bool),
}

/// A scalar value as the store holds it.
#[derive(Clone, Debug)]
pub enum Value {
    Text(String),
    Int(i64),
    Bool(bool),
}

impl View for Value {
    type V = Scalar;

    open spec fn view(&self) -> Scalar {
        match self {
            Value::Text(s) => Scalar::Text(s@),
            Value::Int(i) => Scalar::Int(*i),
            Value::Bool(b) => Scalar::Bool(*b),
        }
    }
}

impl Value {
    pub fn copy(&self) -> (r: Value)
        ensures
            r@ == self@,
    {
        match self {
            Value::Text(s) => Value::Text(s.clone()),
            Value::Int(i) => Value::Int(*i),
            Value::Bool(b) => Value::Bool(*b),
        }
    }
}

/// One named property of a node.
#[derive(Clone, Debug)]
pub struct Property {
    pub key: String,
    pub value: Value,
}

impl View for Property {
    type V = (Seq<char>, Scalar);

    open spec fn view(&self) -> (Seq<char>, Scalar) {
        (self.key@, self.value@)
    }
}

impl Property {
    pub fn copy(&self) -> (r: Property)
        ensures
            r@ == self@,
    {
        Property { key: self.key.clone(), value: self.value.copy() }
    }
}

/// The meaning of a property bag: its entries in order.
pub open spec fn bag_view(bag: Seq<Property>) -> Seq<(Seq<char>, Scalar)> {
    bag.map_values(|p: Property| p@)
}

/// The value of the first entry at or after `i` whose key is `key`.
pub open spec fn lookup_from(bag: Seq<(Seq<char>, Scalar)>, key: Seq<char>, i: int) -> Option<Scalar>
    decreases bag.len() - i,
{
    if i < 0 || i >= bag.len() {
        None
    } else if bag[i].0 == key {
        Some(bag[i].1)
    } else {
        lookup_from(bag, key, i + 1)
    }
}

/// The value that a property bag gives to `key`: that of its first entry with this key.
pub open spec fn lookup(bag: Seq<(Seq<char>, Scalar)>, key: Seq<char>) -> Option<Scalar> {
    lookup_from(bag, key, 0)
}

/// Looks up the value of `key` in a property bag.
pub fn find_property<'a>(bag: &'a Vec<Property>, key: &String) -> (r: Option<&'a Value>)
    ensures
        match r {
            Some(v) => lookup(bag_view(bag@), key@) == Some(v@),
            None => lookup(bag_view(bag@), key@) is None,
        },
{
    let ghost b = bag_view(bag@);
    let mut i: usize = 0;
    while i < bag.len()
        invariant
            i <= bag.len(),
            b == bag_view(bag@),
            lookup(b, key@) == lookup_from(b, key@, i as int),
        decreases bag.len() - i,
    {
        if bag[i].key == *key {
            return Some(&bag[i].value);
        }
        i = i + 1;
    }
    None
}

/// Copies a property bag.
pub fn copy_props(bag: &Vec<Property>) -> (r: Vec<Property>)
    ensures
        bag_view(r@) == bag_view(bag@),
{
    let mut r: Vec<Property> = Vec::new();
    let mut i: usize = 0;
    while i < bag.len()
        invariant
            i <= bag@.len(),
            bag_view(r@) == bag_view(bag@.subrange(0, i as int)),
        decreases bag.len() - i,
    {
        r.push(bag[i].copy());
        proof {
            assert(bag_view(bag@.subrange(0, i + 1)) =~= bag_view(bag@.subrange(0, i as int)).push(bag@[i as int]@));
            assert(bag_view(r@) =~= bag_view(bag@.subrange(0, i as int)).push(bag@[i as int]@));
        }
        i = i + 1;
    }
    assert(bag@.subrange(0, bag@.len() as int) =~= bag@);
    r
}

/// Whether two values are the same scalar.
pub fn same_value(a: &Value, b: &Value) -> (r: bool)
    ensures
        r == (a@ == b@),
{
    match (a, b) {
        (Value::Text(x), Value::Text(y)) => *x == *y,
        (Value::Int(x), Value::Int(y)) => *x == *y,
        (Value::Bool(x), Value::Bool(y)) => *x == *y,
        _ => false,
    }
}

/// The category of a node: one per entity type.
#[derive(Clone, Copy, Debug, PartialEq, Eq, Structural)]
pub enum Label {
    User,
    Team,
    Task,
    Session,
}

impl Label {
    /// The label's name in the store.
    pub fn name(&self) -> (r: &'static str)
        ensures
            r@ == label_name(*self),
    {
        proof {
            reveal_strlit("User");
            reveal_strlit("Team");
            reveal_strlit("Task");
            reveal_strlit("Session");
        }
        match self {
            Label::User => "User",
            Label::Team => "Team",
            Label::Task => "Task",
            Label::Session => "Session",
        }
    }
}

pub open spec fn label_name(l: Label) -> Seq<char> {
    match l {
        Label::User => seq!['U', 's', 'e', 'r'],
        Label::Team => seq!['T', 'e', 'a', 'm'],
        Label::Task => seq!['T', 'a', 's', 'k'],
        Label::Session => seq!['S', 'e', 's', 's', 'i', 'o', 'n'],
    }
}

/// A node as the store returns it: its identity, its label and its properties.
#[derive(Clone, Debug)]
pub struct Node {
    pub id: i64,
    pub label: Label,
    pub props: Vec<Property>,
}

/// Makes a text property.
pub fn text_property(key: &str, value: &String) -> (r: Property)
    ensures
        r@ == (key@, Scalar::Text(value@)),
{
    Property { key: String::from_str(key), value: Value::Text(value.clone()) }
}

/// Makes an integer property.
pub fn int_property(key: &str, value: i64) -> (r: Property)
    ensures
        r@ == (key@, Scalar::Int(value)),
{
    Property { key: String::from_str(key), value: Value::Int(value) }
}

/// Makes a boolean property.
pub fn bool_property(key: &str, value: bool) -> (r: Property)
    ensures
        r@ == (key@, Scalar::Bool(value)),
{
    Property { key: String::from_str(key), value: Value::Bool(value) }
}

} // verus!
