//! Records: JSON objects, read as maps from keys to JSON values.

use ureq::serde_json::Value;
use vstd::prelude::*;

verus! {

/// `serde_json::Value`, any JSON value. Nothing of its shape is visible here;
/// what the library needs of it is named below.
#[verifier::external_type_specification]
#[verifier::external_body]
pub struct ExValue(Value);

/// What a record holds: each key with the JSON value stored under it.
pub type Entries = Map<Seq<char>, Value>;

/// Whether `value` is a JSON object, as `Value::is_object` reports it.
pub uninterp spec fn json_is_object(value: Value) -> bool;

/// The entries of the JSON object `value`: each key with the value stored under
/// it. Of a value that is no object it says nothing.
pub uninterp spec fn json_entries(value: Value) -> Entries;

/// `Value::is_object`: true exactly for the `Object` variant.
#[verifier::external_body]
fn is_object(value: &Value) -> (yes: bool)
    ensures
        yes == json_is_object(*value),
{
    value.is_object()
}

/// `Map::new` inside `Value::Object`: a JSON object without entries.
#[verifier::external_body]
fn empty_object() -> (object: Value)
    ensures
        json_is_object(object),
        json_entries(object) == Entries::empty(),
{
    Value::Object(ureq::serde_json::Map::new())
}

/// `Clone` of `Value`: a deep copy, equal to the value it was made from.
#[verifier::external_body]
fn duplicate(value: &Value) -> (copy: Value)
    ensures
        copy == *value,
{
    value.clone()
}

/// `Map::append` on the maps of two JSON objects: every entry of `source` moves
/// into `target`, replacing the entry `target` had under the same key; `source`
/// is left an empty object. On two objects the call returns without unwinding.
#[verifier::external_body]
fn append_entries(target: &mut Value, source: &mut Value)
    requires
        json_is_object(*old(target)),
        json_is_object(*old(source)),
    ensures
        json_is_object(*final(target)),
        json_entries(*final(target)) == json_entries(*old(target)).union_prefer_right(
            json_entries(*old(source)),
        ),
        json_is_object(*final(source)),
        json_entries(*final(source)) == Entries::empty(),
    no_unwind
{
    target.as_object_mut().unwrap().append(source.as_object_mut().unwrap());
}

/// One record: a JSON object. Its view is the map from its keys to its values.
#[derive(Debug)]
pub struct Record {
    value: Value,
}

impl View for Record {
    type V = Entries;

    closed spec fn view(&self) -> Entries {
        json_entries(self.value)
    }
}

impl Record {
    #[verifier::type_invariant]
    spec fn is_mapping(self) -> bool {
        json_is_object(self.value)
    }

    /// The JSON value that holds this record.
    pub closed spec fn value(&self) -> Value {
        self.value
    }

    /// A record without keys.
    pub fn new() -> (record: Record)
        ensures
            record@ == Entries::empty(),
    {
        Record { value: empty_object() }
    }

    /// Reads `value` as a record; only a JSON object is one.
    pub fn from_value(value: Value) -> (record: Option<Record>)
        ensures
            record is Some <==> json_is_object(value),
            record matches Some(r) ==> r.value() == value && r@ == json_entries(value),
    {
        if is_object(&value) {
            Some(Record { value })
        } else {
            None
        }
    }

    /// Hands the record out as the JSON object that holds it.
    pub fn into_value(self) -> (value: Value)
        ensures
            value == self.value(),
            json_is_object(value),
            json_entries(value) == self@,
    {
        proof {
            use_type_invariant(&self);
        }
        self.value
    }

    /// Overwrites this record's top-level keys with those of `other`: a key of
    /// `other` takes `other`'s value, whole; every other key keeps its own.
    pub fn absorb(&mut self, other: &Record)
        ensures
            final(self)@ == old(self)@.union_prefer_right(other@),
    {
        proof {
            use_type_invariant(&*self);
            use_type_invariant(other);
        }
        let mut incoming = duplicate(&other.value);
        append_entries(&mut self.value, &mut incoming);
    }
}

} // verus!
