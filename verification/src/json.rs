//! JSON documents as plain values, and their mathematical model.
//!
//! The bridge speaks JSON, but this crate neither parses nor prints it: a
//! document arrives already decoded as a [`Json`] value and leaves as one.
//! Everything the client decides is stated over [`JsonView`], the model of a
//! document built from `Seq`, `int` and `bool`.

use vstd::prelude::*;

verus! {

/// A JSON document.
#[derive(Debug, PartialEq, Eq)]
pub enum Json {
    Null,
    Bool(bool),
    /// A number with an integral value.
    Int(i64),
    /// Any other number, kept as the bit pattern of its binary64 encoding.
    /// The bits are carried through untouched and never interpreted.
    Real(u64),
    Str(String),
    Array(Vec<Json>),
    /// The entries of an object, in document order.
    Object(Vec<Member>),
}

/// One `key: value` entry of a JSON object.
#[derive(Debug, PartialEq, Eq)]
pub struct Member {
    pub key: String,
    pub value: Json,
}

/// Mathematical model of a [`Json`] document.
pub enum JsonView {
    Null,
    Bool(bool),
    Int(int),
    Real(u64),
    Str(Seq<char>),
    Array(Seq<JsonView>),
    Object(Seq<(Seq<char>, JsonView)>),
}

/// The model of a document.
pub open spec fn json_view(j: Json) -> JsonView
    decreases j,
{
    match j {
        Json::Null => JsonView::Null,
        Json::Bool(b) => JsonView::Bool(b),
        Json::Int(n) => JsonView::Int(n as int),
        Json::Real(bits) => JsonView::Real(bits),
        Json::Str(s) => JsonView::Str(s@),
        Json::Array(items) => JsonView::Array(items_view(items@)),
        Json::Object(members) => JsonView::Object(members_view(members@)),
    }
}

/// The models of the elements of an array, in order.
pub open spec fn items_view(items: Seq<Json>) -> Seq<JsonView>
    decreases items,
{
    if items.len() == 0 {
        Seq::empty()
    } else {
        items_view(items.drop_last()).push(json_view(items.last()))
    }
}

/// The models of the entries of an object, in order.
pub open spec fn members_view(members: Seq<Member>) -> Seq<(Seq<char>, JsonView)>
    decreases members,
{
    if members.len() == 0 {
        Seq::empty()
    } else {
        members_view(members.drop_last()).push(
            (members.last().key@, json_view(members.last().value)),
        )
    }
}

impl View for Json {
    type V = JsonView;

    open spec fn view(&self) -> JsonView {
        json_view(*self)
    }
}

/// `items_view` maps each element to its model and keeps the order.
pub proof fn lemma_items_view(items: Seq<Json>)
    ensures
        items_view(items).len() == items.len(),
        forall|i: int| 0 <= i < items.len() ==> (#[trigger] items_view(items)[i]) == items[i]@,
    decreases items.len(),
{
    if items.len() > 0 {
        lemma_items_view(items.drop_last());
    }
}

/// `members_view` maps each entry to its key and its value's model and keeps
/// the order.
pub proof fn lemma_members_view(members: Seq<Member>)
    ensures
        members_view(members).len() == members.len(),
        forall|i: int|
            0 <= i < members.len() ==> (#[trigger] members_view(members)[i]) == (
                members[i].key@,
                members[i].value@,
            ),
    decreases members.len(),
{
    if members.len() > 0 {
        lemma_members_view(members.drop_last());
    }
}

/// The value of the first entry at or after `from` whose key is `key`.
pub open spec fn lookup_from(
    members: Seq<(Seq<char>, JsonView)>,
    key: Seq<char>,
    from: int,
) -> Option<JsonView>
    decreases members.len() - from,
{
    if from < 0 || from >= members.len() {
        None
    } else if members[from].0 == key {
        Some(members[from].1)
    } else {
        lookup_from(members, key, from + 1)
    }
}

/// The position of the first entry at or after `from` whose key is `key`.
pub open spec fn position_from(
    members: Seq<(Seq<char>, JsonView)>,
    key: Seq<char>,
    from: int,
) -> Option<int>
    decreases members.len() - from,
{
    if from < 0 || from >= members.len() {
        None
    } else if members[from].0 == key {
        Some(from)
    } else {
        position_from(members, key, from + 1)
    }
}

/// `lookup_from` yields the value at the position that `position_from`
/// finds, and no entry between `from` and that position has the key.
pub proof fn lemma_lookup_at_position(
    members: Seq<(Seq<char>, JsonView)>,
    key: Seq<char>,
    from: int,
)
    requires
        0 <= from,
    ensures
        position_from(members, key, from) matches Some(at) ==> {
            &&& from <= at < members.len()
            &&& members[at].0 == key
            &&& lookup_from(members, key, from) == Some(members[at].1)
            &&& forall|j: int| from <= j < at ==> (#[trigger] members[j]).0 != key
        },
        position_from(members, key, from) is None ==> {
            &&& lookup_from(members, key, from) is None
            &&& forall|j: int| from <= j < members.len() ==> (#[trigger] members[j]).0 != key
        },
    decreases members.len() - from,
{
    if from < members.len() && members[from].0 != key {
        lemma_lookup_at_position(members, key, from + 1);
    }
}

impl JsonView {
    /// The value stored under `key` when `self` is an object that has the
    /// key; the first such entry decides.
    pub open spec fn get(self, key: Seq<char>) -> Option<JsonView> {
        match self {
            JsonView::Object(members) => lookup_from(members, key, 0),
            _ => None,
        }
    }

    /// Whether `self` is an object with an entry under `key`.
    pub open spec fn has_key(self, key: Seq<char>) -> bool {
        self.get(key) is Some
    }
}

/// Position of the first entry of `members` stored under `key`.
pub fn find_member(members: &Vec<Member>, key: &str) -> (r: Option<usize>)
    ensures
        match r {
            Some(at) => position_from(members_view(members@), key@, 0) == Some(at as int),
            None => position_from(members_view(members@), key@, 0) is None,
        },
{
    let wanted = String::from_str(key);
    let ghost entries = members_view(members@);
    proof {
        lemma_members_view(members@);
    }
    let mut i: usize = 0;
    while i < members.len()
        invariant
            i <= members.len(),
            wanted@ == key@,
            entries == members_view(members@),
            entries.len() == members.len(),
            forall|j: int| 0 <= j < members.len() ==> (#[trigger] entries[j]).0 == members[j].key@,
            position_from(entries, key@, 0) == position_from(entries, key@, i as int),
        decreases members.len() - i,
    {
        if members[i].key == wanted {
            return Some(i);
        }
        i += 1;
    }
    None
}

impl Json {
    /// The value stored under `key`, when `self` is an object that has it.
    pub fn get(&self, key: &str) -> (r: Option<&Json>)
        ensures
            match r {
                Some(v) => self@.get(key@) == Some(v@),
                None => self@.get(key@) is None,
            },
    {
        match self {
            Json::Object(members) => {
                proof {
                    lemma_members_view(members@);
                    lemma_lookup_at_position(members_view(members@), key@, 0);
                }
                match find_member(members, key) {
                    Some(at) => Some(&members[at].value),
                    None => None,
                }
            },
            _ => None,
        }
    }

    /// The text of a string document.
    pub fn as_str(&self) -> (r: Option<&String>)
        ensures
            match r {
                Some(s) => self@ == JsonView::Str(s@),
                None => !(self@ is Str),
            },
    {
        match self {
            Json::Str(s) => Some(s),
            _ => None,
        }
    }

    /// The value of an integral number.
    pub fn as_int(&self) -> (r: Option<i64>)
        ensures
            match r {
                Some(n) => self@ == JsonView::Int(n as int),
                None => !(self@ is Int),
            },
    {
        match self {
            Json::Int(n) => Some(*n),
            _ => None,
        }
    }

    /// The value of a boolean document.
    pub fn as_bool(&self) -> (r: Option<bool>)
        ensures
            match r {
                Some(b) => self@ == JsonView::Bool(b),
                None => !(self@ is Bool),
            },
    {
        match self {
            Json::Bool(b) => Some(*b),
            _ => None,
        }
    }
}

impl Member {
    /// The entry `key: value`.
    pub fn new(key: &str, value: Json) -> (r: Member)
        ensures
            r.key@ == key@,
            r.value == value,
    {
        Member { key: String::from_str(key), value }
    }
}

} // verus!
