//! JSON values as plain data, and the way from text to them.

use serde_json::Value;

use vstd::prelude::*;

use crate::text::same_text;

verus! {

/// A parsed value of the `serde_json` crate.
#[verifier::external_type_specification]
#[verifier::external_body]
pub struct ExValue(serde_json::Value);

/// A number: the integer that it is, where it is one that fits, and the bits of the double that
/// stands for it.
#[derive(Clone, Copy, Debug, PartialEq, Eq, Structural)]
pub struct JsonNumber {
    pub integer: Option<i64>,
    pub double_bits: u64,
}

/// What a JSON value is.
pub enum JsonKindModel {
    Null,
    Bool(bool),
    Number(JsonNumber),
    Text(Seq<char>),
    Array(Seq<JsonModel>),
    Object(Seq<JsonMemberModel>),
}

/// A JSON value with its compact rendering.
pub struct JsonModel {
    pub kind: JsonKindModel,
    pub rendered: Seq<char>,
}

/// One member of an object.
pub struct JsonMemberModel {
    pub name: Seq<char>,
    pub value: JsonModel,
}

/// What a JSON value is.
#[derive(Debug)]
pub enum JsonKind {
    Null,
    Bool(bool),
    Number(JsonNumber),
    Text(String),
    Array(Vec<JsonValue>),
    Object(Vec<JsonMember>),
}

/// A JSON value with its compact rendering.
#[derive(Debug)]
pub struct JsonValue {
    pub kind: JsonKind,
    pub rendered: String,
}

/// One member of an object.
#[derive(Debug)]
pub struct JsonMember {
    pub name: String,
    pub value: JsonValue,
}

impl JsonKind {
    pub open spec fn model(self) -> JsonKindModel
        decreases self,
    {
        match self {
            JsonKind::Null => JsonKindModel::Null,
            JsonKind::Bool(value) => JsonKindModel::Bool(value),
            JsonKind::Number(number) => JsonKindModel::Number(number),
            JsonKind::Text(text) => JsonKindModel::Text(text@),
            JsonKind::Array(items) => JsonKindModel::Array(
                Seq::new(
                    items@.len(),
                    |i: int|
                        if 0 <= i < items@.len() {
                            items@[i].model()
                        } else {
                            arbitrary()
                        },
                ),
            ),
            JsonKind::Object(members) => JsonKindModel::Object(
                Seq::new(
                    members@.len(),
                    |i: int|
                        if 0 <= i < members@.len() {
                            members@[i].model()
                        } else {
                            arbitrary()
                        },
                ),
            ),
        }
    }
}

impl JsonValue {
    pub open spec fn model(self) -> JsonModel
        decreases self,
    {
        JsonModel { kind: self.kind.model(), rendered: self.rendered@ }
    }
}

impl JsonMember {
    pub open spec fn model(self) -> JsonMemberModel
        decreases self,
    {
        JsonMemberModel { name: self.name@, value: self.value.model() }
    }
}

impl View for JsonValue {
    type V = JsonModel;

    open spec fn view(&self) -> JsonModel {
        self.model()
    }
}

impl JsonKindModel {
    /// The text, where the value is one.
    pub open spec fn as_text(self) -> Option<Seq<char>> {
        match self {
            JsonKindModel::Text(text) => Some(text),
            _ => None,
        }
    }

    /// The bits of the double that stands for the value, where it is a number.
    pub open spec fn as_double_bits(self) -> Option<u64> {
        match self {
            JsonKindModel::Number(number) => Some(number.double_bits),
            _ => None,
        }
    }

    /// The items, where the value is an array, else none.
    pub open spec fn items(self) -> Seq<JsonModel> {
        match self {
            JsonKindModel::Array(items) => items,
            _ => Seq::empty(),
        }
    }
}

/// The value of the first member called `name`.
pub open spec fn find_member(members: Seq<JsonMemberModel>, name: Seq<char>) -> Option<JsonModel>
    decreases members.len(),
{
    if members.len() == 0 {
        None
    } else if members.first().name == name {
        Some(members.first().value)
    } else {
        find_member(members.drop_first(), name)
    }
}

impl JsonModel {
    /// The member called `name`, where the value is an object that has one.
    pub open spec fn member(self, name: Seq<char>) -> Option<JsonModel> {
        match self.kind {
            JsonKindModel::Object(members) => find_member(members, name),
            _ => None,
        }
    }
}

/// The member called `name` of a value that may not be there.
pub open spec fn member_of(value: Option<JsonModel>, name: Seq<char>) -> Option<JsonModel> {
    match value {
        Some(value) => value.member(name),
        None => None,
    }
}

/// The text of a value that may not be there.
pub open spec fn text_of(value: Option<JsonModel>) -> Option<Seq<char>> {
    match value {
        Some(value) => value.kind.as_text(),
        None => None,
    }
}

/// The text of a value that may not be there, or nothing.
pub open spec fn text_or_empty(value: Option<JsonModel>) -> Seq<char> {
    match text_of(value) {
        Some(text) => text,
        None => Seq::empty(),
    }
}

/// The bits of the double of a value that may not be there.
pub open spec fn double_bits_of(value: Option<JsonModel>) -> Option<u64> {
    match value {
        Some(value) => value.kind.as_double_bits(),
        None => None,
    }
}

/// A value that may not be there, as data.
pub open spec fn optional_model(value: Option<&JsonValue>) -> Option<JsonModel> {
    match value {
        Some(value) => Some(value@),
        None => None,
    }
}

impl JsonValue {
    /// The member called `name`, where the value is an object that has one.
    pub fn get(&self, name: &str) -> (found: Option<&JsonValue>)
        ensures
            optional_model(found) == self@.member(name@),
    {
        if let JsonKind::Object(members) = &self.kind {
            let ghost models = self@.kind->Object_0;
            proof {
                assert(models.skip(0) =~= models);
            }
            for at in 0..members.len()
                invariant
                    self.kind == JsonKind::Object(*members),
                    models == self@.kind->Object_0,
                    members@.len() == models.len(),
                    find_member(models, name@) == find_member(models.skip(at as int), name@),
            {
                proof {
                    assert(models[at as int] == members@[at as int].model());
                    assert(models.skip(at as int).drop_first() =~= models.skip(at + 1));
                    assert(models.skip(at as int).first() == models[at as int]);
                }
                if same_text(members[at].name.as_str(), name) {
                    return Some(&members[at].value);
                }
            }
        }
        None
    }

    /// The text, where the value is one.
    pub fn as_str(&self) -> (found: Option<&str>)
        ensures
            found is Some <==> self@.kind.as_text() is Some,
            found matches Some(text) ==> self@.kind.as_text() == Some(text@),
    {
        match &self.kind {
            JsonKind::Text(text) => Some(text.as_str()),
            _ => None,
        }
    }

    /// The bits of the double that stands for the value, where it is a number.
    pub fn as_double_bits(&self) -> (found: Option<u64>)
        ensures
            found == self@.kind.as_double_bits(),
    {
        match &self.kind {
            JsonKind::Number(number) => Some(number.double_bits),
            _ => None,
        }
    }
}

/// The member called `name` of a value that may not be there.
pub fn get_in<'a>(value: Option<&'a JsonValue>, name: &str) -> (found: Option<&'a JsonValue>)
    ensures
        optional_model(found) == member_of(optional_model(value), name@),
{
    match value {
        Some(value) => value.get(name),
        None => None,
    }
}

/// The text of a value that may not be there, or nothing.
pub fn str_or_empty(value: Option<&JsonValue>) -> (text: &str)
    ensures
        text@ == text_or_empty(optional_model(value)),
{
    if let Some(value) = value {
        if let Some(text) = value.as_str() {
            return text;
        }
    }
    proof {
        reveal_strlit("");
        assert(""@ =~= Seq::<char>::empty());
    }
    ""
}

/// The bits of the double of a value that may not be there.
pub fn double_bits_in(value: Option<&JsonValue>) -> (found: Option<u64>)
    ensures
        found == double_bits_of(optional_model(value)),
{
    match value {
        Some(value) => value.as_double_bits(),
        None => None,
    }
}

/// What a `serde_json::Value` holds.
pub uninterp spec fn json_of(value: serde_json::Value) -> JsonModel;

/// What `serde_json::from_str` makes of a text: the value, or the message of its error.
pub uninterp spec fn json_reading(text: Seq<char>) -> Result<JsonModel, Seq<char>>;

/// Calls `serde_json::from_str` for a `Value`. What comes back depends on the text alone.
#[verifier::external_body]
fn read_value(text: &str) -> (reading: Result<Value, String>)
    ensures
        json_reading(text@) == (match reading {
            Ok(value) => Ok(json_of(value)),
            Err(message) => Err(message@),
        }),
{
    serde_json::from_str::<Value>(text).map_err(|error| error.to_string())
}

/// Calls `Value::as_bool`: the truth value, where the value is one.
#[verifier::external_body]
fn value_bool(value: &Value) -> (found: Option<bool>)
    ensures
        found == (match json_of(*value).kind {
            JsonKindModel::Bool(truth) => Some(truth),
            _ => None,
        }),
{
    value.as_bool()
}

/// Calls `Value::as_str`: the text, where the value is one.
#[verifier::external_body]
fn value_text(value: &Value) -> (found: Option<&str>)
    ensures
        found is Some <==> json_of(*value).kind is Text,
        found matches Some(text) ==> json_of(*value).kind == JsonKindModel::Text(text@),
{
    value.as_str()
}

/// Calls `Value::as_i64`: the integer, where the value is a number that is one and fits.
#[verifier::external_body]
fn value_integer(value: &Value) -> (found: Option<i64>)
    ensures
        found == (match json_of(*value).kind {
            JsonKindModel::Number(number) => number.integer,
            _ => None,
        }),
{
    value.as_i64()
}

/// Calls `Value::as_f64`: the double that stands for the value, where it is a number.
#[verifier::external_body]
fn value_double_bits(value: &Value) -> (found: Option<u64>)
    ensures
        found == (match json_of(*value).kind {
            JsonKindModel::Number(number) => Some(number.double_bits),
            _ => None,
        }),
{
    value.as_f64().map(|double| double.to_bits())
}

/// Calls `Value::as_array`: the items, where the value is an array.
#[verifier::external_body]
fn value_items(value: &Value) -> (found: Option<&Vec<Value>>)
    ensures
        found is Some <==> json_of(*value).kind is Array,
        found matches Some(items) ==> json_of(*value).kind matches JsonKindModel::Array(models)
            && items@.len() == models.len() && forall|i: int|
            0 <= i < items@.len() ==> json_of(#[trigger] items@[i]) == models[i],
{
    value.as_array()
}

/// Calls `Value::as_object`: the members in the order of the map, where the value is an object.
#[verifier::external_body]
fn value_members(value: &Value) -> (found: Option<Vec<(&String, &Value)>>)
    ensures
        found is Some <==> json_of(*value).kind is Object,
        found matches Some(members) ==> json_of(*value).kind matches JsonKindModel::Object(models)
            && members@.len() == models.len() && forall|i: int|
            0 <= i < members@.len() ==> (#[trigger] members@[i]).0@ == models[i].name && json_of(
                *members@[i].1,
            ) == models[i].value,
{
    value.as_object().map(|map| map.iter().collect())
}

/// Calls the `Display` of a `Value`: its compact rendering.
#[verifier::external_body]
fn value_rendered(value: &Value) -> (rendered: String)
    ensures
        rendered@ == json_of(*value).rendered,
{
    value.to_string()
}

/// The value as plain data.
fn plain(value: &Value) -> (plain_value: JsonValue)
    ensures
        plain_value@ == json_of(*value),
    decreases json_of(*value),
{
    let rendered: String = value_rendered(value);
    if let Some(truth) = value_bool(value) {
        return JsonValue { kind: JsonKind::Bool(truth), rendered };
    }
    if let Some(text) = value_text(value) {
        return JsonValue { kind: JsonKind::Text(text.to_owned()), rendered };
    }
    if let Some(double_bits) = value_double_bits(value) {
        let integer: Option<i64> = value_integer(value);
        return JsonValue { kind: JsonKind::Number(JsonNumber { integer, double_bits }), rendered };
    }
    if let Some(items) = value_items(value) {
        let mut plain_items: Vec<JsonValue> = Vec::new();
        let ghost models = json_of(*value).kind->Array_0;
        for at in 0..items.len()
            invariant
                json_of(*value).kind == JsonKindModel::Array(models),
                items@.len() == models.len(),
                forall|i: int| 0 <= i < items@.len() ==> json_of(#[trigger] items@[i]) == models[i],
                plain_items@.len() == at,
                forall|i: int| 0 <= i < at ==> (#[trigger] plain_items@[i])@ == models[i],
        {
            proof {
                let model = json_of(*value);
                assert(json_of(items@[at as int]) == models[at as int]);
                assert(decreases_to!(model => model.kind));
                assert(decreases_to!(model.kind => model.kind->Array_0));
                assert(decreases_to!(models => models[at as int]));
            }
            plain_items.push(plain(&items[at]));
        }
        let result: JsonValue = JsonValue { kind: JsonKind::Array(plain_items), rendered };
        proof {
            assert(result.kind.model()->Array_0 =~= models);
        }
        return result;
    }
    if let Some(members) = value_members(value) {
        let mut plain_members: Vec<JsonMember> = Vec::new();
        let ghost models = json_of(*value).kind->Object_0;
        for at in 0..members.len()
            invariant
                json_of(*value).kind == JsonKindModel::Object(models),
                members@.len() == models.len(),
                forall|i: int|
                    0 <= i < members@.len() ==> (#[trigger] members@[i]).0@ == models[i].name
                        && json_of(*members@[i].1) == models[i].value,
                plain_members@.len() == at,
                forall|i: int| 0 <= i < at ==> (#[trigger] plain_members@[i]).model() == models[i],
        {
            proof {
                let model = json_of(*value);
                assert(json_of(*members@[at as int].1) == models[at as int].value);
                assert(decreases_to!(model => model.kind));
                assert(decreases_to!(model.kind => model.kind->Object_0));
                assert(decreases_to!(models => models[at as int]));
                assert(decreases_to!(models[at as int] => models[at as int].value));
            }
            let member_value: JsonValue = plain(members[at].1);
            plain_members.push(JsonMember { name: members[at].0.clone(), value: member_value });
        }
        let result: JsonValue = JsonValue { kind: JsonKind::Object(plain_members), rendered };
        proof {
            assert(result.kind.model()->Object_0 =~= models);
        }
        return result;
    }
    JsonValue { kind: JsonKind::Null, rendered }
}

/// Reads a JSON text: the value that it holds, or the message that says why it holds none.
pub fn read_json(text: &str) -> (reading: Result<JsonValue, String>)
    ensures
        json_reading(text@) == (match reading {
            Ok(value) => Ok(value@),
            Err(message) => Err(message@),
        }),
{
    match read_value(text) {
        Ok(value) => Ok(plain(&value)),
        Err(message) => Err(message),
    }
}

} // verus!
