//! A JSON document tree, its mathematical model, and its textual form.
//!
//! The tree is this library's own data; reading and writing JSON text is
//! left to `serde_json`.

use serde_json::Value;
use vstd::prelude::*;
use crate::text::str_eq;

verus! {

/// A JSON number: a non-negative integer, a negative integer, or any other
/// number, kept by its decimal text.
#[derive(Debug)]
pub enum JsonNumber {
    PosInt(u64),
    NegInt(i64),
    Float(String),
}

/// A JSON document tree. The members of an object are kept in order.
#[derive(Debug)]
pub enum JsonValue {
    Null,
    Bool(bool),
    Number(JsonNumber),
    String(String),
    Array(Vec<JsonValue>),
    Object(Vec<(String, JsonValue)>),
}

/// The model of a [`JsonNumber`].
pub enum NumberModel {
    PosInt(u64),
    NegInt(i64),
    Float(Seq<char>),
}

/// The model of a [`JsonValue`].
pub enum JsonModel {
    Null,
    Bool(bool),
    Number(NumberModel),
    String(Seq<char>),
    Array(Seq<JsonModel>),
    Object(Seq<(Seq<char>, JsonModel)>),
}

impl View for JsonNumber {
    type V = NumberModel;

    open spec fn view(&self) -> NumberModel {
        match self {
            JsonNumber::PosInt(n) => NumberModel::PosInt(*n),
            JsonNumber::NegInt(n) => NumberModel::NegInt(*n),
            JsonNumber::Float(t) => NumberModel::Float(t@),
        }
    }
}

/// The model of a tree.
pub open spec fn model_of(v: JsonValue) -> JsonModel
    decreases v,
{
    match v {
        JsonValue::Null => JsonModel::Null,
        JsonValue::Bool(b) => JsonModel::Bool(b),
        JsonValue::Number(n) => JsonModel::Number(n@),
        JsonValue::String(s) => JsonModel::String(s@),
        JsonValue::Array(items) => JsonModel::Array(
            Seq::new(
                items@.len(),
                |i: int|
                    if 0 <= i < items@.len() {
                        model_of(items@[i])
                    } else {
                        JsonModel::Null
                    },
            ),
        ),
        JsonValue::Object(members) => JsonModel::Object(
            Seq::new(
                members@.len(),
                |i: int|
                    if 0 <= i < members@.len() {
                        (members@[i].0@, model_of(members@[i].1))
                    } else {
                        (Seq::empty(), JsonModel::Null)
                    },
            ),
        ),
    }
}

impl View for JsonValue {
    type V = JsonModel;

    open spec fn view(&self) -> JsonModel {
        model_of(*self)
    }
}

/// The models of a sequence of trees.
pub open spec fn models_of(items: Seq<JsonValue>) -> Seq<JsonModel> {
    Seq::new(items.len(), |i: int| items[i]@)
}

/// The models of the members of an object.
pub open spec fn members_of(members: Seq<(String, JsonValue)>) -> Seq<(Seq<char>, JsonModel)> {
    Seq::new(members.len(), |i: int| (members[i].0@, members[i].1@))
}

/// The value of the first member named `key`, if there is one.
pub open spec fn lookup(members: Seq<(Seq<char>, JsonModel)>, key: Seq<char>) -> Option<
    JsonModel,
>
    decreases members.len(),
{
    if members.len() == 0 {
        None
    } else if members[0].0 == key {
        Some(members[0].1)
    } else {
        lookup(members.drop_first(), key)
    }
}

impl JsonModel {
    /// The member `key` of an object; `None` for a missing member and for
    /// anything that is not an object.
    pub open spec fn get(self, key: Seq<char>) -> Option<JsonModel> {
        match self {
            JsonModel::Object(members) => lookup(members, key),
            _ => None,
        }
    }

    /// The text of a string value.
    pub open spec fn as_text(self) -> Option<Seq<char>> {
        match self {
            JsonModel::String(s) => Some(s),
            _ => None,
        }
    }

    /// The value of a non-negative integer.
    pub open spec fn as_u64(self) -> Option<u64> {
        match self {
            JsonModel::Number(NumberModel::PosInt(n)) => Some(n),
            _ => None,
        }
    }

    /// The text of the string member `key`.
    pub open spec fn text_at(self, key: Seq<char>) -> Option<Seq<char>> {
        match self.get(key) {
            Some(v) => v.as_text(),
            None => None,
        }
    }
}

/// The view of an array is the sequence of the views of its items.
pub proof fn lemma_array_view(items: Vec<JsonValue>)
    ensures
        JsonValue::Array(items)@ == JsonModel::Array(models_of(items@)),
{
    let a = JsonValue::Array(items)@->Array_0;
    assert(a.len() == items@.len());
    assert forall|i: int| 0 <= i < a.len() implies a[i] == models_of(items@)[i] by {
        assert(a[i] == items@[i]@);
    }
    assert(a =~= models_of(items@));
}

/// The view of an object is the sequence of the views of its members.
pub proof fn lemma_object_view(members: Vec<(String, JsonValue)>)
    ensures
        JsonValue::Object(members)@ == JsonModel::Object(members_of(members@)),
{
    assert(JsonValue::Object(members)@->Object_0 =~= members_of(members@));
}

/// `lookup` finds the member at `i` when no earlier member has its name.
pub proof fn lemma_lookup_at(members: Seq<(Seq<char>, JsonModel)>, key: Seq<char>, i: int)
    requires
        0 <= i < members.len(),
        members[i].0 == key,
        forall|j: int| 0 <= j < i ==> (#[trigger] members[j]).0 != key,
    ensures
        lookup(members, key) == Some(members[i].1),
    decreases i,
{
    if i > 0 {
        let rest = members.drop_first();
        assert forall|j: int| 0 <= j < i - 1 implies (#[trigger] rest[j]).0 != key by {
            assert(rest[j] == members[j + 1]);
        }
        lemma_lookup_at(rest, key, i - 1);
    }
}

/// `lookup` finds nothing when no member has the name.
pub proof fn lemma_lookup_none(members: Seq<(Seq<char>, JsonModel)>, key: Seq<char>)
    requires
        forall|j: int| 0 <= j < members.len() ==> (#[trigger] members[j]).0 != key,
    ensures
        lookup(members, key) is None,
    decreases members.len(),
{
    if members.len() > 0 {
        let rest = members.drop_first();
        assert forall|j: int| 0 <= j < rest.len() implies (#[trigger] rest[j]).0 != key by {
            assert(rest[j] == members[j + 1]);
        }
        lemma_lookup_none(rest, key);
    }
}

/// The index of the first member named `key`.
pub fn find_member(members: &Vec<(String, JsonValue)>, key: &str) -> (at: Option<usize>)
    ensures
        match at {
            Some(i) => {
                &&& i < members.len()
                &&& members@[i as int].0@ == key@
                &&& forall|j: int| 0 <= j < i ==> (#[trigger] members@[j]).0@ != key@
                &&& lookup(members_of(members@), key@) == Some(members@[i as int].1@)
            },
            None => {
                &&& forall|j: int| 0 <= j < members.len() ==> (#[trigger] members@[j]).0@ != key@
                &&& lookup(members_of(members@), key@) is None
            },
        },
{
    let mut i: usize = 0;
    while i < members.len()
        invariant
            i <= members.len(),
            forall|j: int| 0 <= j < i ==> (#[trigger] members@[j]).0@ != key@,
        decreases members.len() - i,
    {
        if str_eq(members[i].0.as_str(), key) {
            proof {
                let m = members_of(members@);
                assert forall|j: int| 0 <= j < i implies (#[trigger] m[j]).0 != key@ by {
                    assert(m[j].0 == members@[j].0@);
                }
                lemma_lookup_at(m, key@, i as int);
            }
            return Some(i);
        }
        i = i + 1;
    }
    proof {
        let m = members_of(members@);
        assert forall|j: int| 0 <= j < m.len() implies (#[trigger] m[j]).0 != key@ by {
            assert(m[j].0 == members@[j].0@);
        }
        lemma_lookup_none(m, key@);
    }
    None
}

impl JsonValue {
    /// The member `key` of an object.
    pub fn get(&self, key: &str) -> (found: Option<&JsonValue>)
        ensures
            match found {
                Some(v) => self@.get(key@) == Some(v@),
                None => self@.get(key@) is None,
            },
    {
        match self {
            JsonValue::Object(members) => {
                proof {
                    lemma_object_view(*members);
                }
                match find_member(members, key) {
                    Some(i) => Some(&members[i].1),
                    None => None,
                }
            },
            _ => None,
        }
    }

    /// The text of a string value.
    pub fn as_str(&self) -> (text: Option<&str>)
        ensures
            match text {
                Some(s) => self@.as_text() == Some(s@),
                None => self@.as_text() is None,
            },
    {
        match self {
            JsonValue::String(s) => Some(s.as_str()),
            _ => None,
        }
    }

    /// The value of a non-negative integer.
    pub fn as_u64(&self) -> (n: Option<u64>)
        ensures
            n == self@.as_u64(),
    {
        match self {
            JsonValue::Number(JsonNumber::PosInt(n)) => Some(*n),
            _ => None,
        }
    }

    /// Whether this is `null`.
    pub fn is_null(&self) -> (b: bool)
        ensures
            b == (self@ is Null),
    {
        match self {
            JsonValue::Null => true,
            _ => false,
        }
    }

    /// The text of the string member `key`.
    pub fn str_at(&self, key: &str) -> (text: Option<&str>)
        ensures
            match text {
                Some(s) => self@.text_at(key@) == Some(s@),
                None => self@.text_at(key@) is None,
            },
    {
        match self.get(key) {
            Some(v) => v.as_str(),
            None => None,
        }
    }

    /// A copy of this tree.
    pub fn duplicate(&self) -> (copy: JsonValue)
        ensures
            copy@ == self@,
        decreases self,
    {
        match self {
            JsonValue::Null => JsonValue::Null,
            JsonValue::Bool(b) => JsonValue::Bool(*b),
            JsonValue::Number(JsonNumber::PosInt(n)) => JsonValue::Number(JsonNumber::PosInt(*n)),
            JsonValue::Number(JsonNumber::NegInt(n)) => JsonValue::Number(JsonNumber::NegInt(*n)),
            JsonValue::Number(JsonNumber::Float(t)) => JsonValue::Number(
                JsonNumber::Float(t.clone()),
            ),
            JsonValue::String(s) => JsonValue::String(s.clone()),
            JsonValue::Array(items) => {
                let mut out: Vec<JsonValue> = Vec::new();
                let mut i: usize = 0;
                while i < items.len()
                    invariant
                        i <= items.len(),
                        self is Array,
                        self->Array_0 == *items,
                        out@.len() == i,
                        forall|j: int| 0 <= j < i ==> (#[trigger] out@[j])@ == items@[j]@,
                    decreases items.len() - i,
                {
                    proof {
                        vstd::std_specs::vec::axiom_vec_index_decreases(*items, i as int);
                    }
                    let c = items[i].duplicate();
                    out.push(c);
                    i = i + 1;
                }
                proof {
                    lemma_array_view(*items);
                    lemma_array_view(out);
                    assert(models_of(out@) =~= models_of(items@));
                }
                JsonValue::Array(out)
            },
            JsonValue::Object(members) => {
                let mut out: Vec<(String, JsonValue)> = Vec::new();
                let mut i: usize = 0;
                while i < members.len()
                    invariant
                        i <= members.len(),
                        self is Object,
                        self->Object_0 == *members,
                        out@.len() == i,
                        forall|j: int|
                            0 <= j < i ==> (#[trigger] out@[j]).0@ == members@[j].0@ && out@[j].1@
                                == members@[j].1@,
                    decreases members.len() - i,
                {
                    proof {
                        vstd::std_specs::vec::axiom_vec_index_decreases(*members, i as int);
                    }
                    let k = members[i].0.clone();
                    let c = members[i].1.duplicate();
                    out.push((k, c));
                    i = i + 1;
                }
                proof {
                    lemma_object_view(*members);
                    lemma_object_view(out);
                    assert(members_of(out@) =~= members_of(members@));
                }
                JsonValue::Object(out)
            },
        }
    }
}

/// A copy of the members of an object.
pub fn duplicate_members(members: &Vec<(String, JsonValue)>) -> (copy: Vec<(String, JsonValue)>)
    ensures
        members_of(copy@) == members_of(members@),
{
    let mut out: Vec<(String, JsonValue)> = Vec::new();
    let mut i: usize = 0;
    while i < members.len()
        invariant
            i <= members.len(),
            out@.len() == i,
            forall|j: int|
                0 <= j < i ==> (#[trigger] out@[j]).0@ == members@[j].0@ && out@[j].1@
                    == members@[j].1@,
        decreases members.len() - i,
    {
        let k = members[i].0.clone();
        let c = members[i].1.duplicate();
        out.push((k, c));
        i = i + 1;
    }
    assert(members_of(out@) =~= members_of(members@));
    out
}

/// The members whose name is not `key`, in order.
pub open spec fn without_key(members: Seq<(Seq<char>, JsonModel)>, key: Seq<char>) -> Seq<
    (Seq<char>, JsonModel),
> {
    members.filter(|m: (Seq<char>, JsonModel)| m.0 != key)
}

/// Copies of the members whose name is not `key`.
pub fn members_without(members: &Vec<(String, JsonValue)>, key: &str) -> (kept: Vec<
    (String, JsonValue),
>)
    ensures
        members_of(kept@) == without_key(members_of(members@), key@),
{
    let ghost other = |m: (Seq<char>, JsonModel)| m.0 != key@;
    let mut kept: Vec<(String, JsonValue)> = Vec::new();
    let mut i: usize = 0;
    assert(members_of(members@).take(0).filter(other) =~= Seq::<(Seq<char>, JsonModel)>::empty())
        by {
        reveal(Seq::filter);
    }
    assert(members_of(kept@) =~= Seq::<(Seq<char>, JsonModel)>::empty());
    while i < members.len()
        invariant
            i <= members.len(),
            other == |m: (Seq<char>, JsonModel)| m.0 != key@,
            members_of(kept@) == members_of(members@).take(i as int).filter(other),
        decreases members.len() - i,
    {
        let ghost all = members_of(members@);
        proof {
            assert(all.take(i + 1).drop_last() == all.take(i as int));
            assert(all.take(i + 1).last() == (members@[i as int].0@, members@[i as int].1@));
            reveal(Seq::filter);
        }
        if !str_eq(members[i].0.as_str(), key) {
            let ghost before = kept@;
            let name = members[i].0.clone();
            let value = members[i].1.duplicate();
            kept.push((name, value));
            assert(members_of(before.push((name, value))) =~= members_of(before).push(
                (name@, value@),
            ));
        }
        i = i + 1;
    }
    assert(members_of(members@).take(members@.len() as int) == members_of(members@));
    kept
}

/// Adding a member at the end adds its model at the end.
pub proof fn lemma_members_push(members: Seq<(String, JsonValue)>, key: String, value: JsonValue)
    ensures
        members_of(members.push((key, value))) == members_of(members).push((key@, value@)),
{
    assert(members_of(members.push((key, value))) =~= members_of(members).push((key@, value@)));
}

/// Adding an item at the end adds its model at the end.
pub proof fn lemma_models_push(items: Seq<JsonValue>, value: JsonValue)
    ensures
        models_of(items.push(value)) == models_of(items).push(value@),
{
    assert(models_of(items.push(value)) =~= models_of(items).push(value@));
}

/// The index of the first member named `key`, or the number of members
/// where there is none.
pub open spec fn key_index(members: Seq<(Seq<char>, JsonModel)>, key: Seq<char>) -> int
    decreases members.len(),
{
    if members.len() == 0 || members[0].0 == key {
        0
    } else {
        1 + key_index(members.drop_first(), key)
    }
}

/// The members with `key` set to `value`: in the place of the first
/// member of that name, or behind the others where there is none.
pub open spec fn with_member(
    members: Seq<(Seq<char>, JsonModel)>,
    key: Seq<char>,
    value: JsonModel,
) -> Seq<(Seq<char>, JsonModel)> {
    let at = key_index(members, key);
    if 0 <= at < members.len() {
        members.update(at, (key, value))
    } else {
        members.push((key, value))
    }
}

/// `key_index` is `i` when the member at `i` is the first named `key`, or
/// `i` is the number of members and none is named `key`.
pub proof fn lemma_key_index(members: Seq<(Seq<char>, JsonModel)>, key: Seq<char>, i: int)
    requires
        0 <= i <= members.len(),
        forall|j: int| 0 <= j < i ==> (#[trigger] members[j]).0 != key,
        i < members.len() ==> members[i].0 == key,
    ensures
        key_index(members, key) == i,
    decreases i,
{
    if i > 0 {
        let rest = members.drop_first();
        assert forall|j: int| 0 <= j < i - 1 implies (#[trigger] rest[j]).0 != key by {
            assert(rest[j] == members[j + 1]);
        }
        lemma_key_index(rest, key, i - 1);
    }
}

/// The value of the first member named `key`.
pub fn get_member<'a>(members: &'a Vec<(String, JsonValue)>, key: &str) -> (found: Option<
    &'a JsonValue,
>)
    ensures
        match found {
            Some(v) => lookup(members_of(members@), key@) == Some(v@),
            None => lookup(members_of(members@), key@) is None,
        },
{
    match find_member(members, key) {
        Some(i) => Some(&members[i].1),
        None => None,
    }
}

/// Sets the member `key` to `value`: in the place of the first member of
/// that name, or behind the others where there is none.
pub fn insert_member(members: &mut Vec<(String, JsonValue)>, key: &str, value: JsonValue)
    ensures
        members_of(final(members)@) == with_member(members_of(old(members)@), key@, value@),
{
    let ghost before = members_of(members@);
    match find_member(members, key) {
        Some(i) => {
            proof {
                assert forall|j: int| 0 <= j < i implies (#[trigger] before[j]).0 != key@ by {
                    assert(before[j].0 == members@[j].0@);
                }
                lemma_key_index(before, key@, i as int);
            }
            let name = key.to_owned();
            members.set(i, (name, value));
            assert(members_of(members@) =~= before.update(i as int, (key@, value@)));
        },
        None => {
            proof {
                assert forall|j: int| 0 <= j < before.len() implies (#[trigger] before[j]).0
                    != key@ by {
                    assert(before[j].0 == members@[j].0@);
                }
                lemma_key_index(before, key@, before.len() as int);
            }
            push_member(members, key, value);
        },
    }
}

/// The members with each of `extra` set in turn, the first first.
pub open spec fn with_members(
    members: Seq<(Seq<char>, JsonModel)>,
    extra: Seq<(Seq<char>, JsonModel)>,
) -> Seq<(Seq<char>, JsonModel)>
    decreases extra.len(),
{
    if extra.len() == 0 {
        members
    } else {
        with_member(with_members(members, extra.drop_last()), extra.last().0, extra.last().1)
    }
}

/// Sets each member of `extra` in turn, the first first.
pub fn insert_members(members: &mut Vec<(String, JsonValue)>, extra: &Vec<(String, JsonValue)>)
    ensures
        members_of(final(members)@) == with_members(
            members_of(old(members)@),
            members_of(extra@),
        ),
{
    let ghost all = members_of(extra@);
    let mut i: usize = 0;
    assert(all.take(0) =~= Seq::<(Seq<char>, JsonModel)>::empty());
    while i < extra.len()
        invariant
            i <= extra.len(),
            all == members_of(extra@),
            members_of(members@) == with_members(members_of(old(members)@), all.take(i as int)),
        decreases extra.len() - i,
    {
        proof {
            assert(all.take(i + 1).drop_last() == all.take(i as int));
            assert(all.take(i + 1).last() == (extra@[i as int].0@, extra@[i as int].1@));
        }
        insert_member(members, extra[i].0.as_str(), extra[i].1.duplicate());
        i = i + 1;
    }
    assert(all.take(all.len() as int) == all);
}

/// A string value.
pub fn json_string(text: &str) -> (value: JsonValue)
    ensures
        value@ == JsonModel::String(text@),
{
    JsonValue::String(text.to_owned())
}

/// The value of an optional text: the string, or `null`.
pub open spec fn model_of_opt_text(text: Option<Seq<char>>) -> JsonModel {
    match text {
        Some(t) => JsonModel::String(t),
        None => JsonModel::Null,
    }
}

/// A count as a number value.
pub fn json_count(n: usize) -> (value: JsonValue)
    ensures
        value@ == JsonModel::Number(NumberModel::PosInt(n as u64)),
{
    JsonValue::Number(JsonNumber::PosInt(n as u64))
}

/// A sequence number as a number value.
pub fn json_u64(n: u64) -> (value: JsonValue)
    ensures
        value@ == JsonModel::Number(NumberModel::PosInt(n)),
{
    JsonValue::Number(JsonNumber::PosInt(n))
}

/// An object with the given members.
pub fn json_object(members: Vec<(String, JsonValue)>) -> (value: JsonValue)
    ensures
        value@ == JsonModel::Object(members_of(members@)),
{
    proof {
        lemma_object_view(members);
    }
    JsonValue::Object(members)
}

/// An array with the given items.
pub fn json_array(items: Vec<JsonValue>) -> (value: JsonValue)
    ensures
        value@ == JsonModel::Array(models_of(items@)),
{
    proof {
        lemma_array_view(items);
    }
    JsonValue::Array(items)
}

/// Adds the member `key` with `value` behind the others.
pub fn push_member(members: &mut Vec<(String, JsonValue)>, key: &str, value: JsonValue)
    ensures
        members_of(final(members)@) == members_of(old(members)@).push((key@, value@)),
{
    let name = key.to_owned();
    proof {
        lemma_members_push(members@, name, value);
    }
    members.push((name, value));
}

/// No members.
pub fn no_members() -> (members: Vec<(String, JsonValue)>)
    ensures
        members_of(members@) == Seq::<(Seq<char>, JsonModel)>::empty(),
{
    let members: Vec<(String, JsonValue)> = Vec::new();
    assert(members_of(members@) =~= Seq::<(Seq<char>, JsonModel)>::empty());
    members
}

/// `serde_json::Value`, known by its name only.
#[verifier::external_type_specification]
#[verifier::external_body]
pub struct ExValue(serde_json::Value);

/// `serde_json::Error`, known by its name only.
#[verifier::external_type_specification]
#[verifier::external_body]
pub struct ExJsonError(serde_json::Error);

/// The tree that `serde_json` reads from a text, if the text is JSON.
pub uninterp spec fn json_parse(text: Seq<char>) -> Option<JsonModel>;

/// The compact text that `serde_json` writes for a tree.
pub uninterp spec fn json_text(tree: JsonModel) -> Seq<char>;

/// The indented text that `serde_json` writes for a tree.
pub uninterp spec fn json_pretty_text(tree: JsonModel) -> Seq<char>;

/// Copies a `serde_json::Value` into a tree, variant by variant. The
/// three kinds of number are told apart with `as_u64` and `as_i64`; a
/// number that is no integer is kept as the text that its `Display` gives.
/// The members of an object come in the order in which its map walks
/// them. Nothing is claimed of the result.
#[verifier::external_body]
fn tree_from_outside(v: &Value) -> JsonValue {
    match v {
        Value::Null => JsonValue::Null,
        Value::Bool(b) => JsonValue::Bool(*b),
        Value::Number(n) => JsonValue::Number(match (n.as_u64(), n.as_i64()) {
            (Some(u), _) => JsonNumber::PosInt(u),
            (_, Some(i)) => JsonNumber::NegInt(i),
            _ => JsonNumber::Float(n.to_string()),
        }),
        Value::String(s) => JsonValue::String(s.clone()),
        Value::Array(a) => JsonValue::Array(a.iter().map(tree_from_outside).collect()),
        Value::Object(m) => JsonValue::Object(
            m.iter().map(|(k, v)| (k.clone(), tree_from_outside(v))).collect(),
        ),
    }
}

/// Copies a tree into a `serde_json::Value`, variant by variant. The text
/// of a number that is no integer is read back with `Number`'s `FromStr`;
/// a text that is no number becomes `null`. The members of an object go
/// into a map, where a later member takes the place of an earlier one of
/// the same name and all come out in the order of their names. Nothing is
/// claimed of the result.
#[verifier::external_body]
fn tree_to_outside(t: &JsonValue) -> Value {
    match t {
        JsonValue::Null => Value::Null,
        JsonValue::Bool(b) => Value::Bool(*b),
        JsonValue::Number(JsonNumber::PosInt(u)) => Value::from(*u),
        JsonValue::Number(JsonNumber::NegInt(i)) => Value::from(*i),
        JsonValue::Number(JsonNumber::Float(x)) => x.parse().map_or(Value::Null, Value::Number),
        JsonValue::String(s) => Value::String(s.clone()),
        JsonValue::Array(a) => Value::Array(a.iter().map(tree_to_outside).collect()),
        JsonValue::Object(m) => Value::Object(
            m.iter().map(|(k, v)| (k.clone(), tree_to_outside(v))).collect(),
        ),
    }
}

/// `serde_json::from_str`, read as a `serde_json::Value` and copied into a
/// tree. The contract only names the result: the same text always gives
/// the same tree, and a text that is not JSON gives the error.
#[verifier::external_body]
pub(crate) fn parse_json(text: &str) -> (parsed: Result<JsonValue, serde_json::Error>)
    ensures
        match parsed {
            Ok(tree) => json_parse(text@) == Some(tree@),
            Err(_) => json_parse(text@) is None,
        },
{
    match serde_json::from_str::<Value>(text) {
        Ok(v) => Ok(tree_from_outside(&v)),
        Err(e) => Err(e),
    }
}

/// `serde_json::to_string` on the tree, copied into a
/// `serde_json::Value`. Writing a `Value` into a string has no failing
/// path, so the contract promises the text; of the text it only names
/// it.
#[verifier::external_body]
pub(crate) fn render_json(tree: &JsonValue) -> (rendered: Result<String, serde_json::Error>)
    ensures
        rendered is Ok,
        rendered matches Ok(text) ==> text@ == json_text(tree@),
{
    serde_json::to_string(&tree_to_outside(tree))
}

/// `serde_json::to_string_pretty` on the tree, copied into a
/// `serde_json::Value`. Writing a `Value` into a string has no failing
/// path, so the contract promises the text; of the text it only names
/// it.
#[verifier::external_body]
pub(crate) fn render_json_pretty(tree: &JsonValue) -> (rendered: Result<
    String,
    serde_json::Error,
>)
    ensures
        rendered is Ok,
        rendered matches Ok(text) ==> text@ == json_pretty_text(tree@),
{
    serde_json::to_string_pretty(&tree_to_outside(tree))
}

/// The compact JSON text of a tree.
pub fn to_text(tree: &JsonValue) -> (text: String)
    ensures
        text@ == json_text(tree@),
{
    match render_json(tree) {
        Ok(text) => text,
        Err(_) => String::new(),
    }
}

/// The indented JSON text of a tree.
pub fn to_pretty_text(tree: &JsonValue) -> (text: String)
    ensures
        text@ == json_pretty_text(tree@),
{
    match render_json_pretty(tree) {
        Ok(text) => text,
        Err(_) => String::new(),
    }
}

} // verus!
