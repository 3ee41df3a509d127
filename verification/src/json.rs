//! Structured values as the canvas holds them: free-form records whose
//! members the encoder and the element operations read by key.

use vstd::prelude::*;

use crate::text::same_text;

verus! {

/// A number as it was written: an unsigned or a negative integer, or the bit
/// pattern of a binary64 value. The library copies and compares numbers;
/// arithmetic on them is left to the caller.
#[derive(Clone, Copy, Debug, PartialEq, Eq, Structural)]
pub enum Number {
    PosInt(u64),
    NegInt(i64),
    Float(u64),
}

impl Number {
    /// The number as a signed 64-bit integer, where it was written as an
    /// integer and fits.
    pub open spec fn integer(self) -> Option<i64> {
        match self {
            Number::PosInt(n) => if n <= i64::MAX {
                Some(n as i64)
            } else {
                None
            },
            Number::NegInt(n) => Some(n),
            Number::Float(_) => None,
        }
    }

    /// The number as a signed 64-bit integer, where it was written as an
    /// integer and fits.
    pub fn as_i64(&self) -> (value: Option<i64>)
        ensures
            value == self.integer(),
    {
        match *self {
            Number::PosInt(n) => if n <= i64::MAX as u64 {
                Some(n as i64)
            } else {
                None
            },
            Number::NegInt(n) => Some(n),
            Number::Float(_) => None,
        }
    }
}

/// A structured value. The members of an object keep the order in which they
/// were written.
#[derive(Debug, PartialEq, Eq)]
pub enum Json {
    Null,
    Bool(bool),
    Number(Number),
    Text(String),
    Array(Vec<Json>),
    Object(Vec<(String, Json)>),
}

/// What a [`Json`] value holds.
pub enum JsonView {
    Null,
    Bool(bool),
    Number(Number),
    Text(Seq<char>),
    Array(Seq<JsonView>),
    Object(Seq<(Seq<char>, JsonView)>),
}

/// What a value holds.
pub open spec fn value_of(json: Json) -> JsonView
    decreases json,
{
    match json {
        Json::Null => JsonView::Null,
        Json::Bool(b) => JsonView::Bool(b),
        Json::Number(n) => JsonView::Number(n),
        Json::Text(s) => JsonView::Text(s@),
        Json::Array(items) => JsonView::Array(
            Seq::new(
                items@.len(),
                |i: int|
                    if 0 <= i < items@.len() {
                        value_of(items@[i])
                    } else {
                        JsonView::Null
                    },
            ),
        ),
        Json::Object(members) => JsonView::Object(
            Seq::new(
                members@.len(),
                |i: int|
                    if 0 <= i < members@.len() {
                        (members@[i].0@, value_of(members@[i].1))
                    } else {
                        (Seq::empty(), JsonView::Null)
                    },
            ),
        ),
    }
}

impl View for Json {
    type V = JsonView;

    open spec fn view(&self) -> JsonView {
        value_of(*self)
    }
}

/// The views of a sequence of values, in order.
pub open spec fn views(items: Seq<Json>) -> Seq<JsonView> {
    Seq::new(items.len(), |i: int| items[i]@)
}

/// The views of the members of an object, in order.
pub open spec fn member_views(members: Seq<(String, Json)>) -> Seq<(Seq<char>, JsonView)> {
    Seq::new(members.len(), |i: int| (members[i].0@, members[i].1@))
}

/// The view of an optional value.
pub open spec fn optional_view(value: Option<Json>) -> Option<JsonView> {
    match value {
        Some(json) => Some(json@),
        None => None,
    }
}

/// An array's view is the views of its items.
pub proof fn lemma_array_view(items: Vec<Json>)
    ensures
        Json::Array(items)@ == JsonView::Array(views(items@)),
{
    assert(Json::Array(items)@->Array_0 =~= views(items@));
}

/// An object's view is the views of its members.
pub proof fn lemma_object_view(members: Vec<(String, Json)>)
    ensures
        Json::Object(members)@ == JsonView::Object(member_views(members@)),
{
    assert(Json::Object(members)@->Object_0 =~= member_views(members@));
}

/// The value of the first member with the given key.
pub open spec fn member(members: Seq<(Seq<char>, JsonView)>, key: Seq<char>) -> Option<JsonView>
    decreases members.len(),
{
    if members.len() == 0 {
        None
    } else if members[0].0 == key {
        Some(members[0].1)
    } else {
        member(members.drop_first(), key)
    }
}

impl JsonView {
    /// The member of an object with the given key; nothing for any other
    /// value.
    pub open spec fn get(self, key: Seq<char>) -> Option<JsonView> {
        match self {
            JsonView::Object(members) => member(members, key),
            _ => None,
        }
    }

    /// The characters of a text.
    pub open spec fn as_text(self) -> Option<Seq<char>> {
        match self {
            JsonView::Text(s) => Some(s),
            _ => None,
        }
    }

    /// The number that the value is.
    pub open spec fn as_number(self) -> Option<Number> {
        match self {
            JsonView::Number(n) => Some(n),
            _ => None,
        }
    }

    /// The items of an array.
    pub open spec fn as_items(self) -> Option<Seq<JsonView>> {
        match self {
            JsonView::Array(items) => Some(items),
            _ => None,
        }
    }

    /// The items of an array; none for any other value.
    pub open spec fn items(self) -> Seq<JsonView> {
        match self {
            JsonView::Array(items) => items,
            _ => Seq::empty(),
        }
    }
}

/// The value, or null where there is none.
pub open spec fn or_null(value: Option<JsonView>) -> JsonView {
    match value {
        Some(json) => json,
        None => JsonView::Null,
    }
}

impl Json {
    /// The member of an object with the given key.
    pub fn get(&self, key: &str) -> (found: Option<&Json>)
        ensures
            match found {
                Some(value) => self@.get(key@) == Some(value@),
                None => self@.get(key@) is None,
            },
    {
        match self {
            Json::Object(members) => {
                proof {
                    lemma_object_view(*members);
                }
                let ghost all = member_views(members@);
                assert(all.skip(0) =~= all);
                let mut i: usize = 0;
                while i < members.len()
                    invariant
                        i <= members.len(),
                        all == member_views(members@),
                        self@ == JsonView::Object(all),
                        member(all, key@) == member(all.skip(i as int), key@),
                    decreases members.len() - i,
                {
                    assert(all.skip(i as int).drop_first() =~= all.skip(i + 1));
                    if same_text(members[i].0.as_str(), key) {
                        return Some(&members[i].1);
                    }
                    i += 1;
                }
                None
            },
            _ => None,
        }
    }

    /// The characters of a text.
    pub fn as_str(&self) -> (text: Option<&str>)
        ensures
            match text {
                Some(s) => self@.as_text() == Some(s@),
                None => self@.as_text() is None,
            },
    {
        match self {
            Json::Text(s) => Some(s.as_str()),
            _ => None,
        }
    }

    /// The number that the value is.
    pub fn as_number(&self) -> (number: Option<Number>)
        ensures
            number == self@.as_number(),
    {
        match self {
            Json::Number(n) => Some(*n),
            _ => None,
        }
    }

    /// The items of an array.
    pub fn as_array(&self) -> (items: Option<&Vec<Json>>)
        ensures
            match items {
                Some(v) => self@.as_items() == Some(views(v@)),
                None => self@.as_items() is None,
            },
    {
        match self {
            Json::Array(items) => {
                proof {
                    lemma_array_view(*items);
                }
                Some(items)
            },
            _ => None,
        }
    }
}

/// An array without items.
pub fn empty_array() -> (json: Json)
    ensures
        json@ == JsonView::Array(Seq::empty()),
{
    let items: Vec<Json> = Vec::new();
    proof {
        lemma_array_view(items);
        assert(views(items@) =~= Seq::<JsonView>::empty());
    }
    Json::Array(items)
}

/// A copy of the value, or null where there is none.
pub fn or_null_copy(value: &Option<Json>) -> (json: Json)
    ensures
        json@ == or_null(optional_view(*value)),
{
    match value {
        Some(json) => json.clone(),
        None => Json::Null,
    }
}

/// A copy of a list of values.
pub fn clone_items(items: &Vec<Json>) -> (copies: Vec<Json>)
    ensures
        views(copies@) == views(items@),
{
    let mut copies: Vec<Json> = Vec::new();
    let mut i: usize = 0;
    while i < items.len()
        invariant
            i <= items.len(),
            copies.len() == i,
            forall|k: int| 0 <= k < i ==> copies@[k]@ == items@[k]@,
        decreases items.len() - i,
    {
        copies.push(items[i].clone());
        i += 1;
    }
    copies
}

impl Clone for Json {
    /// A copy that holds the same value.
    #[verifier::loop_isolation(false)]
    fn clone(&self) -> (copy: Json)
        ensures
            copy@ == self@,
        decreases self,
    {
        match self {
            Json::Null => Json::Null,
            Json::Bool(b) => Json::Bool(*b),
            Json::Number(n) => Json::Number(*n),
            Json::Text(s) => Json::Text(s.clone()),
            Json::Array(items) => {
                let mut copies: Vec<Json> = Vec::new();
                let mut i: usize = 0;
                while i < items.len()
                    invariant
                        i <= items.len(),
                        copies.len() == i,
                        forall|k: int| 0 <= k < i ==> copies@[k]@ == items@[k]@,
                    decreases items.len() - i,
                {
                    copies.push(items[i].clone());
                    i += 1;
                }
                proof {
                    lemma_array_view(*items);
                    lemma_array_view(copies);
                    assert(views(copies@) =~= views(items@));
                }
                Json::Array(copies)
            },
            Json::Object(members) => {
                let mut copies: Vec<(String, Json)> = Vec::new();
                let mut i: usize = 0;
                while i < members.len()
                    invariant
                        i <= members.len(),
                        copies.len() == i,
                        forall|k: int|
                            0 <= k < i ==> copies@[k].0@ == members@[k].0@ && copies@[k].1@
                                == members@[k].1@,
                    decreases members.len() - i,
                {
                    copies.push((members[i].0.clone(), members[i].1.clone()));
                    i += 1;
                }
                proof {
                    lemma_object_view(*members);
                    lemma_object_view(copies);
                    assert(member_views(copies@) =~= member_views(members@));
                }
                Json::Object(copies)
            },
        }
    }
}

} // verus!
