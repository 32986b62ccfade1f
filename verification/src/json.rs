//! JSON values as the rest of the library sees them.
//!
//! Values are `serde_json::Value`s. Verus does not look inside one, so every
//! contract speaks of a value through [`json_model`], the tree it holds. The
//! functions here whose bodies Verus does not read are the only places where
//! that tree is tied to what `serde_json` does: each makes one call, and its
//! contract is taken on trust. Everything built on them is proved.

use vstd::prelude::*;
use crate::text::{decimal, signed_decimal};

verus! {

/// `serde_json::Value`, carried through without a look inside.
#[verifier::external_type_specification]
#[verifier::external_body]
pub struct ExValue(serde_json::Value);

/// `serde_json::Map`, carried through without a look inside.
#[verifier::external_type_specification]
#[verifier::external_body]
#[verifier::reject_recursive_types(K)]
#[verifier::reject_recursive_types(V)]
pub struct ExJsonMap<K, V>(serde_json::Map<K, V>);

/// The tree that a JSON value holds. A number is held by the text that
/// `serde_json` writes for it; an object maps each key to its member.
pub enum JsonModel {
    Null,
    Bool(bool),
    Number(Seq<char>),
    Text(Seq<char>),
    Array(Seq<JsonModel>),
    Object(Map<Seq<char>, JsonModel>),
}

/// What a `serde_json::Value` holds.
pub uninterp spec fn json_model(v: serde_json::Value) -> JsonModel;

/// What a `serde_json::Map` holds: the tree of the member under each key.
pub uninterp spec fn map_members(m: serde_json::Map<String, serde_json::Value>) -> Map<Seq<char>, JsonModel>;

/// What `serde_json::from_str` makes of a text: the tree of the value that
/// the text writes, or the message of the error with which it refuses a text
/// that is not one JSON value.
pub uninterp spec fn json_parse(text: Seq<char>) -> Result<JsonModel, Seq<char>>;

/// The compact text that `serde_json` writes for a tree.
pub uninterp spec fn json_text(m: JsonModel) -> Seq<char>;

/// The trees of a list of values, item by item.
pub open spec fn models(items: Seq<serde_json::Value>) -> Seq<JsonModel> {
    items.map_values(|v: serde_json::Value| json_model(v))
}

/// The object that a list of members makes when they are set in the order
/// of the list: a later member replaces an earlier one with the same key.
pub open spec fn member_map(members: Seq<(String, serde_json::Value)>) -> Map<Seq<char>, JsonModel>
    decreases members.len(),
{
    if members.len() == 0 {
        Map::empty()
    } else {
        member_map(members.drop_last()).insert(members.last().0@, json_model(members.last().1))
    }
}

/// An object without members.
pub open spec fn no_members() -> Map<Seq<char>, JsonModel> {
    Map::empty()
}

/// The member of an object under a key; nothing for a missing key or a value
/// that is no object.
pub open spec fn member_of(v: JsonModel, key: Seq<char>) -> Option<JsonModel> {
    match v {
        JsonModel::Object(m) => if m.contains_key(key) {
            Some(m[key])
        } else {
            None
        },
        _ => None,
    }
}

/// The text of the member under a key, where that is a string.
pub open spec fn text_member_of(v: JsonModel, key: Seq<char>) -> Option<Seq<char>> {
    match member_of(v, key) {
        Some(JsonModel::Text(s)) => Some(s),
        _ => None,
    }
}

/// What a text was read as, a value by its tree.
pub open spec fn parsed_model(parsed: Result<serde_json::Value, String>) -> Result<JsonModel, Seq<char>> {
    match parsed {
        Ok(v) => Ok(json_model(v)),
        Err(e) => Err(e@),
    }
}

/// A list of texts as JSON strings.
pub open spec fn text_values(words: Seq<Seq<char>>) -> Seq<JsonModel> {
    words.map_values(|w: Seq<char>| JsonModel::Text(w))
}

/// `serde_json::from_str` at type `Value`, its error as the error's text:
/// what [`json_parse`] names, a value by its tree.
#[verifier::external_body]
pub(crate) fn parse(text: &str) -> (r: Result<serde_json::Value, String>)
    ensures
        parsed_model(r) == json_parse(text@),
{
    serde_json::from_str::<serde_json::Value>(text).map_err(|e| e.to_string())
}

/// `Value`'s `Display`: the compact text of the value.
#[verifier::external_body]
pub(crate) fn render(v: &serde_json::Value) -> (s: String)
    ensures
        s@ == json_text(json_model(*v)),
{
    v.to_string()
}

/// `Value::get` with a string key, cloned: the member of an object under that
/// key; nothing for a missing key or a value that is no object.
#[verifier::external_body]
pub(crate) fn member(v: &serde_json::Value, key: &str) -> (r: Option<serde_json::Value>)
    ensures
        match member_of(json_model(*v), key@) {
            Some(m) => r is Some && json_model(r.unwrap()) == m,
            None => r is None,
        },
{
    v.get(key).cloned()
}

/// The text of the member under a key, where that is a string.
pub fn text_member(v: &serde_json::Value, key: &str) -> (r: Option<String>)
    ensures
        match text_member_of(json_model(*v), key@) {
            Some(s) => r is Some && r.unwrap()@ == s,
            None => r is None,
        },
{
    match member(v, key) {
        Some(m) => text_of(&m),
        None => None,
    }
}

/// A list of texts as a JSON array of strings.
pub fn text_array(words: &Vec<String>) -> (r: serde_json::Value)
    ensures
        json_model(r) == JsonModel::Array(text_values(crate::text::texts(words@))),
{
    let mut items: Vec<serde_json::Value> = Vec::new();
    let mut i: usize = 0;
    proof {
        assert(models(items@) =~= text_values(crate::text::texts(words@).take(0)));
    }
    while i < words.len()
        invariant
            i <= words.len(),
            models(items@) == text_values(crate::text::texts(words@).take(i as int)),
        decreases words.len() - i,
    {
        let item = string(words[i].as_str());
        proof {
            models_push(items@, item);
            assert(text_values(crate::text::texts(words@).take(i as int + 1)) =~= text_values(
                crate::text::texts(words@).take(i as int),
            ).push(JsonModel::Text(words@[i as int]@)));
        }
        items.push(item);
        i = i + 1;
    }
    proof {
        assert(crate::text::texts(words@).take(words.len() as int) =~= crate::text::texts(words@));
    }
    array(items)
}

/// `Value::as_str`, owned: the text of a string value, nothing for any other.
#[verifier::external_body]
pub(crate) fn text_of(v: &serde_json::Value) -> (r: Option<String>)
    ensures
        match json_model(*v) {
            JsonModel::Text(s) => r is Some && r.unwrap()@ == s,
            _ => r is None,
        },
{
    v.as_str().map(|s| s.to_string())
}

/// `Value::as_object`, its members cloned in the map's order: each key once,
/// together making the object again; nothing for a value that is no object.
#[verifier::external_body]
pub(crate) fn members_of(v: &serde_json::Value) -> (r: Option<Vec<(String, serde_json::Value)>>)
    ensures
        match json_model(*v) {
            JsonModel::Object(m) => r is Some && member_map(r.unwrap()@) == m,
            _ => r is None,
        },
{
    v.as_object().map(|m| m.iter().map(|(k, x)| (k.clone(), x.clone())).collect())
}

/// `Value::as_array`, cloned: the items of an array, nothing for a value
/// that is no array.
#[verifier::external_body]
pub(crate) fn items_of(v: &serde_json::Value) -> (r: Option<Vec<serde_json::Value>>)
    ensures
        match json_model(*v) {
            JsonModel::Array(items) => r is Some && models(r.unwrap()@) == items,
            _ => r is None,
        },
{
    v.as_array().cloned()
}

/// `Value::clone`: a value with the same tree.
#[verifier::external_body]
pub(crate) fn copy(v: &serde_json::Value) -> (r: serde_json::Value)
    ensures
        json_model(r) == json_model(*v),
{
    v.clone()
}

/// `Value::Null`.
#[verifier::external_body]
pub(crate) fn null() -> (r: serde_json::Value)
    ensures
        json_model(r) == JsonModel::Null,
{
    serde_json::Value::Null
}

/// `Value::Bool`.
#[verifier::external_body]
pub(crate) fn boolean(b: bool) -> (r: serde_json::Value)
    ensures
        json_model(r) == JsonModel::Bool(b),
{
    serde_json::Value::Bool(b)
}

/// `Value::from` on an `i64`: the number that is written as the decimal text
/// of `n`.
#[verifier::external_body]
pub(crate) fn integer(n: i64) -> (r: serde_json::Value)
    ensures
        json_model(r) == JsonModel::Number(signed_decimal(n as int)),
{
    serde_json::Value::from(n)
}

/// `Value::from` on a `u64`: the number that is written as the decimal text
/// of `n`.
#[verifier::external_body]
pub(crate) fn unsigned(n: u64) -> (r: serde_json::Value)
    ensures
        json_model(r) == JsonModel::Number(decimal(n as nat)),
{
    serde_json::Value::from(n)
}

/// `Value::String` of a copy of `s`.
#[verifier::external_body]
pub(crate) fn string(s: &str) -> (r: serde_json::Value)
    ensures
        json_model(r) == JsonModel::Text(s@),
{
    serde_json::Value::String(s.to_string())
}

/// `Value::Array` of the items, in their order.
#[verifier::external_body]
pub(crate) fn array(items: Vec<serde_json::Value>) -> (r: serde_json::Value)
    ensures
        json_model(r) == JsonModel::Array(models(items@)),
{
    serde_json::Value::Array(items)
}

/// `serde_json::Map::new`: a map without members.
#[verifier::external_body]
fn map_new() -> (fresh: serde_json::Map<String, serde_json::Value>)
    ensures
        map_members(fresh) == no_members(),
{
    serde_json::Map::new()
}

/// `serde_json::Map::insert`: the value stands under the key afterwards,
/// in place of what stood there; the other members stay.
#[verifier::external_body]
fn map_insert(m: &mut serde_json::Map<String, serde_json::Value>, key: String, value: serde_json::Value)
    ensures
        map_members(*final(m)) == map_members(*old(m)).insert(key@, json_model(value)),
{
    m.insert(key, value);
}

/// `Value::Object` of a map.
#[verifier::external_body]
fn object(m: serde_json::Map<String, serde_json::Value>) -> (r: serde_json::Value)
    ensures
        json_model(r) == JsonModel::Object(map_members(m)),
{
    serde_json::Value::Object(m)
}

/// Adding one value to a list adds its tree to the list of trees.
pub proof fn models_push(items: Seq<serde_json::Value>, value: serde_json::Value)
    ensures
        models(items.push(value)) == models(items).push(json_model(value)),
{
    assert(models(items.push(value)) =~= models(items).push(json_model(value)));
}

/// The members of an object, set one by one.
pub struct ObjectBuilder {
    members: serde_json::Map<String, serde_json::Value>,
}

impl ObjectBuilder {
    /// The object that the members set so far make.
    pub closed spec fn model(&self) -> Map<Seq<char>, JsonModel> {
        map_members(self.members)
    }

    /// A builder without members.
    pub fn new() -> (b: ObjectBuilder)
        ensures
            b.model() == Map::<Seq<char>, JsonModel>::empty(),
    {
        ObjectBuilder { members: map_new() }
    }

    /// Sets the member `key`, replacing an earlier one under that key.
    pub fn set(&mut self, key: &str, value: serde_json::Value)
        ensures
            final(self).model() == old(self).model().insert(key@, json_model(value)),
    {
        map_insert(&mut self.members, String::from_str(key), value);
    }

    /// Sets each member of the list, in the order of the list: the object
    /// of the list is laid over what was set before.
    pub fn merge(&mut self, members: &Vec<(String, serde_json::Value)>)
        ensures
            final(self).model() == old(self).model().union_prefer_right(member_map(members@)),
    {
        let ghost base = self.model();
        let mut i: usize = 0;
        proof {
            assert(members@.take(0) =~= Seq::<(String, serde_json::Value)>::empty());
            assert(base.union_prefer_right(member_map(members@.take(0))) =~= base);
        }
        while i < members.len()
            invariant
                i <= members.len(),
                self.model() == base.union_prefer_right(member_map(members@.take(i as int))),
            decreases members.len() - i,
        {
            let value = copy(&members[i].1);
            proof {
                let upto = members@.take(i as int + 1);
                assert(upto.drop_last() =~= members@.take(i as int));
                assert(upto.last() == members@[i as int]);
                assert(base.union_prefer_right(member_map(upto)) =~= base.union_prefer_right(
                    member_map(members@.take(i as int)),
                ).insert(members@[i as int].0@, json_model(value)));
            }
            self.set(members[i].0.as_str(), value);
            i = i + 1;
        }
        proof {
            assert(members@.take(members.len() as int) =~= members@);
        }
    }

    /// The object with the members set.
    pub fn finish(self) -> (r: serde_json::Value)
        ensures
            json_model(r) == JsonModel::Object(self.model()),
    {
        object(self.members)
    }
}

} // verus!
