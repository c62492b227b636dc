//! JSON values as sessions carry them.
//!
//! The values themselves are `serde_json`'s. What a value holds is named by
//! [`content`]; the functions below are the only ones that read or build values,
//! and each says over that name what `serde_json` does.

use vstd::prelude::*;

verus! {

/// A JSON value of `serde_json`.
#[verifier::external_type_specification]
#[verifier::external_body]
pub struct ExValue(serde_json::Value);

/// An error of `serde_json`.
#[verifier::external_type_specification]
#[verifier::external_body]
pub struct ExJsonError(serde_json::Error);

/// What a JSON value holds, as a mathematical value.
pub enum Json {
    Null,
    Bool(bool),
    /// A number that is an unsigned integer of 64 bits.
    Unsigned(u64),
    /// A number that is a negative integer of 64 bits.
    Negative(i64),
    /// Any other number, as its text.
    Number(Seq<char>),
    Text(Seq<char>),
    Array(Seq<Json>),
    Object(Map<Seq<char>, Json>),
}

impl Json {
    /// Whether this is an object with a member of that name.
    pub open spec fn has_member(self, name: Seq<char>) -> bool {
        self matches Json::Object(members) && members.dom().contains(name)
    }

    /// The member of that name, of an object that has one.
    pub open spec fn member(self, name: Seq<char>) -> Json
        recommends
            self.has_member(name),
    {
        self->Object_0[name]
    }
}

/// What a value of `serde_json` holds.
pub uninterp spec fn content(value: serde_json::Value) -> Json;

/// The value that a JSON text denotes, if it is a JSON text that `serde_json` reads.
pub uninterp spec fn parsed_json(text: Seq<char>) -> Option<Json>;

/// The contents of a list of values.
pub open spec fn contents(values: Seq<serde_json::Value>) -> Seq<Json> {
    Seq::new(values.len(), |i: int| content(values[i]))
}

/// The members that a list of named values stands for.
pub open spec fn members_of(fields: Seq<(String, serde_json::Value)>) -> Map<Seq<char>, Json>
    decreases fields.len(),
{
    if fields.len() == 0 {
        Map::empty()
    } else {
        members_of(fields.drop_last()).insert(fields.last().0@, content(fields.last().1))
    }
}

/// Reads a JSON text: `serde_json::from_str`, for a `serde_json::Value`.
///
/// Claimed: the outcome is a function of the text. A value comes back exactly for
/// the texts that `serde_json` accepts, and it holds what the text denotes.
/// Nothing is claimed of the error.
#[verifier::external_body]
pub(crate) fn parse_json(text: &str) -> (parsed: Result<serde_json::Value, serde_json::Error>)
    ensures
        match parsed {
            Ok(value) => parsed_json(text@) == Some(content(value)),
            Err(_) => parsed_json(text@) is None,
        },
{
    serde_json::from_str(text)
}

/// Looks up a member by its name: `serde_json::Value::get`.
///
/// Claimed: the member is found exactly in an object that has one of that name,
/// and what is found holds what the object holds under it.
#[verifier::external_body]
pub(crate) fn find_member<'a>(value: &'a serde_json::Value, name: &str) -> (found: Option<
    &'a serde_json::Value,
>)
    ensures
        match found {
            Some(member) => content(*value).has_member(name@) && content(*member) == content(
                *value,
            ).member(name@),
            None => !content(*value).has_member(name@),
        },
{
    value.get(name)
}

/// Copies a value: `serde_json::Value::clone`.
///
/// Claimed: the copy holds the same.
#[verifier::external_body]
pub(crate) fn copy_value(value: &serde_json::Value) -> (copy: serde_json::Value)
    ensures
        content(copy) == content(*value),
{
    value.clone()
}

/// The null value: `serde_json::Value::from` of the unit.
///
/// Claimed: it holds null.
#[verifier::external_body]
pub(crate) fn null_value() -> (value: serde_json::Value)
    ensures
        content(value) == Json::Null,
{
    serde_json::Value::from(())
}

/// An integer as a value: `serde_json::Value::from` of a `u64`.
///
/// Claimed: it holds that integer.
#[verifier::external_body]
pub(crate) fn unsigned_value(number: u64) -> (value: serde_json::Value)
    ensures
        content(value) == Json::Unsigned(number),
{
    serde_json::Value::from(number)
}

/// A text as a value: `serde_json::Value::from` of a `String`.
///
/// Claimed: it holds that text.
#[verifier::external_body]
pub(crate) fn text_value(text: String) -> (value: serde_json::Value)
    ensures
        content(value) == Json::Text(text@),
{
    serde_json::Value::from(text)
}

/// A list as a value: `serde_json::Value::from` of a `Vec`.
///
/// Claimed: it is an array of the same values in the same order.
#[verifier::external_body]
pub(crate) fn array_value(values: Vec<serde_json::Value>) -> (value: serde_json::Value)
    ensures
        content(value) == Json::Array(contents(values@)),
{
    serde_json::Value::from(values)
}

/// An object of named values: `serde_json::Value::from_iter` over pairs.
///
/// Claimed: for names that differ, it is an object with these members and no others.
#[verifier::external_body]
pub(crate) fn object_value(fields: Vec<(String, serde_json::Value)>) -> (value: serde_json::Value)
    requires
        forall|i: int, j: int| 0 <= i < j < fields@.len() ==> fields@[i].0@ != fields@[j].0@,
    ensures
        content(value) == Json::Object(members_of(fields@)),
{
    serde_json::Value::from_iter(fields)
}

/// Sets a member of an object: `serde_json::Map::insert` on the map of a
/// `serde_json::Value::Object`.
///
/// Claimed: an object gets the member, in place of one of that name if it has one. A
/// value that is no object stays as it is.
#[verifier::external_body]
pub(crate) fn set_member(
    value: serde_json::Value,
    name: String,
    member: serde_json::Value,
) -> (changed: serde_json::Value)
    ensures
        content(changed) == match content(value) {
            Json::Object(members) => Json::Object(members.insert(name@, content(member))),
            other => other,
        },
{
    match value {
        serde_json::Value::Object(mut members) => {
            members.insert(name, member);
            serde_json::Value::Object(members)
        },
        other => other,
    }
}

} // verus!
