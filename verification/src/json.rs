//! JSON values of `serde_json` and what they hold.
use crate::text::{decimal, decimal_is_injective, option_text};
use vstd::prelude::*;

verus! {

/// `serde_json::Value`.
#[verifier::external_type_specification]
#[verifier::external_body]
pub struct ExValue(serde_json::Value);

/// What a JSON value is. A number is held as the text it is printed with.
pub enum Json {
    Null,
    Bool(bool),
    Number(Seq<char>),
    Text(Seq<char>),
    Array(Seq<Json>),
    Object(Map<Seq<char>, Json>),
}

/// What a `serde_json::Value` holds.
pub uninterp spec fn tree(value: serde_json::Value) -> Json;

impl Json {
    /// The member of an object, where there is one.
    pub open spec fn member(self, key: Seq<char>) -> Option<Json> {
        match self {
            Json::Object(members) => if members.dom().contains(key) {
                Some(members[key])
            } else {
                None
            },
            _ => None,
        }
    }

    pub open spec fn text(self) -> Option<Seq<char>> {
        match self {
            Json::Text(text) => Some(text),
            _ => None,
        }
    }

    pub open spec fn flag(self) -> Option<bool> {
        match self {
            Json::Bool(value) => Some(value),
            _ => None,
        }
    }

    pub open spec fn items(self) -> Option<Seq<Json>> {
        match self {
            Json::Array(items) => Some(items),
            _ => None,
        }
    }

    /// Whether the value is this unsigned integer.
    pub open spec fn is_number(self, n: u64) -> bool {
        self == Json::Number(decimal(n as nat))
    }

    /// The unsigned integer that the value is, where it is one.
    pub open spec fn number(self) -> Option<u64> {
        if exists|n: u64| #[trigger] self.is_number(n) {
            Some(choose|n: u64| #[trigger] self.is_number(n))
        } else {
            None
        }
    }

    /// The text of a member, where it is one.
    pub open spec fn member_text(self, key: Seq<char>) -> Option<Seq<char>> {
        match self.member(key) {
            Some(value) => value.text(),
            None => None,
        }
    }

    /// Whether the value is an object all of whose members are texts.
    pub open spec fn has_texts_only(self) -> bool {
        self matches Json::Object(members) && forall|key: Seq<char>| #[trigger]
            members.dom().contains(key) ==> members[key] is Text
    }

    /// Whether a member is this boolean.
    pub open spec fn member_is(self, key: Seq<char>, flag: bool) -> bool {
        self.member(key) == Some(Json::Bool(flag))
    }
}

/// `Value::get` with a string: the member of an object, and nothing for other values.
#[verifier::external_body]
pub(crate) fn get<'a>(value: &'a serde_json::Value, key: &str) -> (res: Option<
    &'a serde_json::Value,
>)
    ensures
        res is Some <==> tree(*value).member(key@) is Some,
        res matches Some(inner) ==> tree(*value).member(key@) == Some(tree(*inner)),
{
    value.get(key)
}

/// `Value::as_str`, copied: the text of a JSON string.
#[verifier::external_body]
pub(crate) fn as_text(value: &serde_json::Value) -> (res: Option<String>)
    ensures
        option_text(res) == tree(*value).text(),
{
    value.as_str().map(str::to_owned)
}

/// `Value::as_bool`: the value of a JSON boolean.
#[verifier::external_body]
pub(crate) fn as_flag(value: &serde_json::Value) -> (res: Option<bool>)
    ensures
        res == tree(*value).flag(),
{
    value.as_bool()
}

/// `Value::as_u64`: the value of a JSON number that is an unsigned 64-bit integer, which is printed
/// in decimal.
#[verifier::external_body]
pub(crate) fn as_number(value: &serde_json::Value) -> (res: Option<u64>)
    ensures
        res matches Some(n) ==> tree(*value).is_number(n),
        res is None ==> forall|n: u64| !#[trigger] tree(*value).is_number(n),
{
    value.as_u64()
}

/// `Value::as_array`: the items of a JSON array.
#[verifier::external_body]
pub(crate) fn as_items(value: &serde_json::Value) -> (res: Option<&Vec<serde_json::Value>>)
    ensures
        res is Some <==> tree(*value).items() is Some,
        res matches Some(items) ==> tree(*value).items() == Some(
            items@.map_values(|item: serde_json::Value| tree(item)),
        ),
{
    value.as_array()
}

/// `Value::is_object`.
#[verifier::external_body]
pub(crate) fn is_object(value: &serde_json::Value) -> (res: bool)
    ensures
        res == (tree(*value) is Object),
{
    value.is_object()
}

/// The compact text of a JSON value.
pub uninterp spec fn json_text(value: Json) -> Seq<char>;

/// `Display` of `Value`: the compact text, which depends on what the value holds alone.
#[verifier::external_body]
pub(crate) fn to_text(value: &serde_json::Value) -> (res: String)
    ensures
        res@ == json_text(tree(*value)),
{
    value.to_string()
}

/// What `serde_json` reads from the bytes of a text, or the message of its error.
pub uninterp spec fn json_of_bytes(bytes: Seq<u8>) -> Result<Json, Seq<char>>;

/// `serde_json::from_slice` into a `Value`; the value and the error's message depend on the bytes
/// alone.
#[verifier::external_body]
pub(crate) fn parse_bytes(bytes: &[u8]) -> (res: Result<serde_json::Value, String>)
    ensures
        res is Ok <==> json_of_bytes(bytes@) is Ok,
        res matches Ok(value) ==> tree(value) == json_of_bytes(bytes@)->Ok_0,
        res matches Err(message) ==> message@ == json_of_bytes(bytes@)->Err_0,
{
    serde_json::from_slice(bytes).map_err(|error| error.to_string())
}

/// What `serde_json` reads from a text, or the message of its error.
pub uninterp spec fn json_of_text(text: Seq<char>) -> Result<Json, Seq<char>>;

/// `serde_json::from_str` into a `Value`; the value and the error's message depend on the text
/// alone.
#[verifier::external_body]
pub(crate) fn parse_text(text: &str) -> (res: Result<serde_json::Value, String>)
    ensures
        res is Ok <==> json_of_text(text@) is Ok,
        res matches Ok(value) ==> tree(value) == json_of_text(text@)->Ok_0,
        res matches Err(message) ==> message@ == json_of_text(text@)->Err_0,
{
    serde_json::from_str(text).map_err(|error| error.to_string())
}

/// `Value::String`: a JSON string.
#[verifier::external_body]
pub(crate) fn text_value(text: &str) -> (res: serde_json::Value)
    ensures
        tree(res) == Json::Text(text@),
{
    serde_json::Value::String(text.to_owned())
}

/// `Clone` of `Value`: a value that holds the same.
#[verifier::external_body]
pub(crate) fn copy(value: &serde_json::Value) -> (res: serde_json::Value)
    ensures
        tree(res) == tree(*value),
{
    value.clone()
}

/// `Value::Null`.
#[verifier::external_body]
pub(crate) fn null() -> (res: serde_json::Value)
    ensures
        tree(res) == Json::Null,
{
    serde_json::Value::Null
}

/// `Value::Object` of a new `serde_json::Map`: an object without members.
#[verifier::external_body]
pub(crate) fn empty_object() -> (res: serde_json::Value)
    ensures
        tree(res) == Json::Object(Map::empty()),
{
    serde_json::Value::Object(serde_json::Map::new())
}

/// `IndexMut` of `Value` with a string, assigned to: an object gets the member in place of the one it
/// had by that name, if any. Other values are left out, since most of them make it panic.
#[verifier::external_body]
pub(crate) fn set_member(value: &mut serde_json::Value, key: &str, member: serde_json::Value)
    requires
        tree(*old(value)) is Object,
    ensures
        tree(*final(value)) == Json::Object(
            tree(*old(value))->Object_0.insert(key@, tree(member)),
        ),
{
    value[key] = member;
}

/// `PartialEq` of `Value`, with an object of texts: the other value is an object with the same
/// members. Numbers are left out, since two zeros that are printed with different signs are equal.
#[verifier::external_body]
pub(crate) fn same_value(value: &serde_json::Value, texts: &serde_json::Value) -> (res: bool)
    requires
        tree(*texts).has_texts_only(),
    ensures
        res == (tree(*value) == tree(*texts)),
{
    value == texts
}

/// The unsigned integer that a value is, where it is one.
pub fn number_of(value: &serde_json::Value) -> (res: Option<u64>)
    ensures
        res == tree(*value).number(),
{
    let number = as_number(value);
    proof {
        match number {
            Some(n) => {
                assert(tree(*value).is_number(n));
                let chosen = choose|m: u64| #[trigger] tree(*value).is_number(m);
                assert(tree(*value).is_number(chosen));
                decimal_is_injective(n as nat, chosen as nat);
            },
            None => {},
        }
    }
    number
}

/// The text of a member, where it is one.
pub fn member_text(value: &serde_json::Value, key: &str) -> (res: Option<String>)
    ensures
        option_text(res) == tree(*value).member_text(key@),
{
    match get(value, key) {
        Some(member) => as_text(member),
        None => None,
    }
}

/// Whether a member is this boolean.
pub fn member_is(value: &serde_json::Value, key: &str, flag: bool) -> (res: bool)
    ensures
        res == tree(*value).member_is(key@, flag),
{
    match get(value, key) {
        Some(member) => match as_flag(member) {
            Some(found) => found == flag,
            None => false,
        },
        None => false,
    }
}

} // verus!
