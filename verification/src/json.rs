//! JSON values, and what this library takes from `serde_json`.
//!
//! A [`JsonValue`] shows the outermost layer of a `serde_json::Value`: its
//! variant, a boolean and a string in full. Numbers and what stands inside arrays
//! and objects stay values of `serde_json`, which are carried and handed back to it.

use vstd::prelude::*;
use vstd::string::*;

use crate::value::is_finite;

verus! {

/// `serde_json::Number`, opaque here.
#[verifier::external_type_specification]
#[verifier::external_body]
pub struct ExJsonNumber(serde_json::Number);

/// `serde_json::Value`, opaque here.
#[verifier::external_type_specification]
#[verifier::external_body]
pub struct ExJsonValue(serde_json::Value);

/// `serde_json::Error`, opaque here.
#[verifier::external_type_specification]
#[verifier::external_body]
pub struct ExJsonError(serde_json::Error);

/// `serde_json::Map`, opaque here.
#[verifier::external_type_specification]
#[verifier::external_body]
#[verifier::reject_recursive_types(K)]
#[verifier::reject_recursive_types(V)]
pub struct ExJsonMap<K, V>(serde_json::Map<K, V>);

/// The outermost layer of a JSON value.
#[derive(Debug, PartialEq)]
pub enum JsonValue {
    Null,
    Bool(bool),
    Number(serde_json::Number),
    String(String),
    Array(Vec<serde_json::Value>),
    Object(serde_json::Map<String, serde_json::Value>),
}

/// What a [`JsonValue`] stands for.
#[verifier::ext_equal]
pub enum JsonView {
    Null,
    Bool(bool),
    Number(serde_json::Number),
    String(Seq<char>),
    Array(Seq<serde_json::Value>),
    Object(Map<Seq<char>, serde_json::Value>),
}

impl View for JsonValue {
    type V = JsonView;

    open spec fn view(&self) -> JsonView {
        match self {
            JsonValue::Null => JsonView::Null,
            JsonValue::Bool(b) => JsonView::Bool(*b),
            JsonValue::Number(n) => JsonView::Number(*n),
            JsonValue::String(s) => JsonView::String(s@),
            JsonValue::Array(items) => JsonView::Array(items@),
            JsonValue::Object(entries) => JsonView::Object(object_entries(*entries)),
        }
    }
}

/// The outermost layer of a `serde_json::Value`.
pub uninterp spec fn json_view(value: serde_json::Value) -> JsonView;

/// The keys of a JSON object, each with its value.
pub uninterp spec fn object_entries(
    object: serde_json::Map<String, serde_json::Value>,
) -> Map<Seq<char>, serde_json::Value>;

/// What `Number::as_i64` gives for the number.
pub uninterp spec fn number_i64(number: serde_json::Number) -> Option<i64>;

/// What `Number::as_u64` gives for the number.
pub uninterp spec fn number_u64(number: serde_json::Number) -> Option<u64>;

/// The bit pattern of what `Number::as_f64` gives for the number.
pub uninterp spec fn number_real(number: serde_json::Number) -> Option<u64>;

/// The number as `serde_json` writes it.
pub uninterp spec fn number_text(number: serde_json::Number) -> Seq<char>;

/// What `serde_json::from_str` reads from the text.
pub uninterp spec fn parsed_json(text: Seq<char>) -> Result<serde_json::Value, serde_json::Error>;

/// The value as compact JSON text.
pub uninterp spec fn json_text(value: serde_json::Value) -> Seq<char>;

/// The bytes that `serde_json::to_vec` gives for an array of these items.
pub uninterp spec fn array_bytes(items: Seq<serde_json::Value>) -> Seq<u8>;

/// The bytes that `serde_json::to_vec` gives for an object.
pub uninterp spec fn object_bytes(
    object: serde_json::Map<String, serde_json::Value>,
) -> Seq<u8>;

/// The text of an error of `serde_json`.
pub uninterp spec fn json_error_text(error: serde_json::Error) -> Seq<char>;

/// Whether the number is the JSON integer `i`.
pub open spec fn is_integer_number(number: serde_json::Number, i: int) -> bool {
    &&& number_i64(number) == if i64::MIN <= i <= i64::MAX {
        Some(i as i64)
    } else {
        None::<i64>
    }
    &&& number_u64(number) == if 0 <= i <= u64::MAX {
        Some(i as u64)
    } else {
        None::<u64>
    }
}

/// Whether the number is the JSON number of the finite double with this bit
/// pattern, held as a double.
pub open spec fn is_real_number(number: serde_json::Number, bits: u64) -> bool {
    &&& number_i64(number) is None
    &&& number_u64(number) is None
    &&& number_real(number) == Some(bits)
}

/// Whether this is the JSON array of the numbers that the bytes are.
pub open spec fn is_byte_array(view: JsonView, bytes: Seq<u8>) -> bool {
    match view {
        JsonView::Array(items) => {
            &&& items.len() == bytes.len()
            &&& forall|i: int|
                0 <= i < items.len() ==> (json_view(#[trigger] items[i]) matches JsonView::Number(n)
                    && is_integer_number(n, bytes[i] as int))
        },
        _ => false,
    }
}

/// Whether the number is read back unchanged from its own text. Integers always
/// are; of a double the parser may miss the last digit.
pub open spec fn number_survives(number: serde_json::Number) -> bool {
    ||| number_i64(number) is Some
    ||| number_u64(number) is Some
    ||| parsed_json(number_text(number)) matches Ok(value) && json_view(value) == JsonView::Number(
        number,
    )
}

/// Whether the value nests at most `depth` arrays and objects and every number in
/// it survives.
pub open spec fn survives(value: serde_json::Value, depth: nat) -> bool
    decreases depth,
{
    match json_view(value) {
        JsonView::Null => true,
        JsonView::Bool(_) => true,
        JsonView::String(_) => true,
        JsonView::Number(number) => number_survives(number),
        JsonView::Array(items) => {
            &&& depth > 0
            &&& forall|i: int|
                0 <= i < items.len() ==> survives(#[trigger] items[i], (depth - 1) as nat)
        },
        JsonView::Object(entries) => {
            &&& depth > 0
            &&& forall|key: Seq<char>|
                entries.contains_key(key) ==> survives(
                    #[trigger] entries[key],
                    (depth - 1) as nat,
                )
        },
    }
}

/// Whether `serde_json::from_str` reads the value from the text.
pub open spec fn reads_back(text: Seq<char>, value: serde_json::Value) -> bool {
    parsed_json(text) matches Ok(read) && read == value
}

/// How deep arrays and objects may nest in JSON text that `serde_json` reads.
pub const MAX_JSON_DEPTH: u8 = 127;

/// Takes a `serde_json::Value` apart, one layer deep: each variant becomes the
/// variant of the same name and keeps what it holds.
#[verifier::external_body]
fn take_apart(value: serde_json::Value) -> (layer: JsonValue)
    ensures
        layer@ == json_view(value),
{
    match value {
        serde_json::Value::Null => JsonValue::Null,
        serde_json::Value::Bool(b) => JsonValue::Bool(b),
        serde_json::Value::Number(n) => JsonValue::Number(n),
        serde_json::Value::String(s) => JsonValue::String(s),
        serde_json::Value::Array(items) => JsonValue::Array(items),
        serde_json::Value::Object(entries) => JsonValue::Object(entries),
    }
}

/// Puts a `serde_json::Value` together from its outermost layer, the inverse of
/// [`take_apart`].
#[verifier::external_body]
fn put_together(layer: JsonValue) -> (value: serde_json::Value)
    ensures
        json_view(value) == layer@,
{
    match layer {
        JsonValue::Null => serde_json::Value::Null,
        JsonValue::Bool(b) => serde_json::Value::Bool(b),
        JsonValue::Number(n) => serde_json::Value::Number(n),
        JsonValue::String(s) => serde_json::Value::String(s),
        JsonValue::Array(items) => serde_json::Value::Array(items),
        JsonValue::Object(entries) => serde_json::Value::Object(entries),
    }
}

/// `Clone::clone` of `serde_json::Number`: an equal number.
pub assume_specification[ <serde_json::Number as Clone>::clone ](
    number: &serde_json::Number,
) -> (copy: serde_json::Number)
    ensures
        copy == *number,
;

/// `Clone::clone` of `serde_json::Value`: an equal value.
pub assume_specification[ <serde_json::Value as Clone>::clone ](
    value: &serde_json::Value,
) -> (copy: serde_json::Value)
    ensures
        copy == *value,
;

/// `Clone::clone` of `serde_json::Map`: an object with equal entries.
pub assume_specification[ <serde_json::Map<String, serde_json::Value> as Clone>::clone ](
    object: &serde_json::Map<String, serde_json::Value>,
) -> (copy: serde_json::Map<String, serde_json::Value>)
    ensures
        copy == *object,
;

/// Whether two JSON values are the same.
pub open spec fn same_json(a: JsonValue, b: JsonValue) -> bool {
    match (a, b) {
        (JsonValue::Null, JsonValue::Null) => true,
        (JsonValue::Bool(x), JsonValue::Bool(y)) => x == y,
        (JsonValue::Number(x), JsonValue::Number(y)) => x == y,
        (JsonValue::String(x), JsonValue::String(y)) => x@ == y@,
        (JsonValue::Array(x), JsonValue::Array(y)) => x@ == y@,
        (JsonValue::Object(x), JsonValue::Object(y)) => x == y,
        _ => false,
    }
}

fn copied_items(items: &Vec<serde_json::Value>) -> (copy: Vec<serde_json::Value>)
    ensures
        copy@ == items@,
{
    let mut copy: Vec<serde_json::Value> = Vec::new();
    let mut i: usize = 0;
    while i < items.len()
        invariant
            i <= items.len(),
            copy@ == items@.take(i as int),
        decreases items.len() - i,
    {
        copy.push(items[i].clone());
        assert(items@.take(i + 1) =~= items@.take(i as int).push(items@[i as int]));
        i += 1;
    }
    assert(items@.take(i as int) =~= items@);
    copy
}

impl Clone for JsonValue {
    fn clone(&self) -> (copy: Self)
        ensures
            same_json(*self, copy),
            copy@ == self@,
    {
        match self {
            JsonValue::Null => JsonValue::Null,
            JsonValue::Bool(b) => JsonValue::Bool(*b),
            JsonValue::Number(n) => JsonValue::Number(n.clone()),
            JsonValue::String(s) => JsonValue::String(s.clone()),
            JsonValue::Array(items) => JsonValue::Array(copied_items(items)),
            JsonValue::Object(entries) => JsonValue::Object(entries.clone()),
        }
    }
}

impl JsonValue {
    /// The outermost layer of `value`.
    pub fn from_serde(value: serde_json::Value) -> (layer: JsonValue)
        ensures
            layer@ == json_view(value),
    {
        take_apart(value)
    }

    /// The `serde_json::Value` with this outermost layer.
    pub fn into_serde(self) -> (value: serde_json::Value)
        ensures
            json_view(value) == self@,
    {
        put_together(self)
    }
}

/// `serde_json::Number::as_i64`: its result depends on the number alone, and is named
/// [`number_i64`].
#[verifier::external_body]
pub(crate) fn number_as_i64(number: &serde_json::Number) -> (value: Option<i64>)
    ensures
        value == number_i64(*number),
{
    number.as_i64()
}

/// `serde_json::Number::as_u64`: its result depends on the number alone, and is named
/// [`number_u64`].
#[verifier::external_body]
pub(crate) fn number_as_u64(number: &serde_json::Number) -> (value: Option<u64>)
    ensures
        value == number_u64(*number),
{
    number.as_u64()
}

/// `serde_json::Number::as_f64`, its result taken by its bit pattern: it depends on the number
/// alone, and is named [`number_real`].
#[verifier::external_body]
pub(crate) fn number_as_real(number: &serde_json::Number) -> (value: Option<u64>)
    ensures
        value == number_real(*number),
{
    match number.as_f64() {
        Some(double) => Some(double.to_bits()),
        None => None,
    }
}

/// `to_string` through the `Display` of `serde_json::Number`: the text depends on the number
/// alone, and is named [`number_text`].
#[verifier::external_body]
pub(crate) fn number_to_text(number: &serde_json::Number) -> (text: String)
    ensures
        text@ == number_text(*number),
{
    number.to_string()
}

/// `serde_json::Number::from` for an `i64`: the number is that integer.
#[verifier::external_body]
pub(crate) fn number_from_i64(i: i64) -> (number: serde_json::Number)
    ensures
        is_integer_number(number, i as int),
{
    serde_json::Number::from(i)
}

/// `serde_json::Number::from_f64` for the double with this bit pattern: a number
/// that holds the double where it is finite, and none where it is not.
#[verifier::external_body]
pub(crate) fn number_from_real(bits: u64) -> (number: Option<serde_json::Number>)
    ensures
        number is Some <==> is_finite(bits),
        number matches Some(n) ==> is_real_number(n, bits),
{
    let double = zerocopy::little_endian::F64::from_bytes(bits.to_le_bytes());
    serde_json::Number::from_f64(double.get())
}

/// `serde_json::from_str` into a `serde_json::Value`: the value or the error depends on the text
/// alone, and is named [`parsed_json`]. Which texts are JSON is left unsaid.
#[verifier::external_body]
pub(crate) fn parse_json(text: &str) -> (value: Result<serde_json::Value, serde_json::Error>)
    ensures
        value == parsed_json(text@),
{
    serde_json::from_str(text)
}

/// `to_string` through the `Display` of `serde_json::Value`: compact JSON text, named
/// [`json_text`].
/// From it `serde_json::from_str` reads the value back, where the value nests no
/// deeper than the parser goes and its numbers survive being written and read.
#[verifier::external_body]
pub(crate) fn json_to_text(value: &serde_json::Value) -> (text: String)
    ensures
        text@ == json_text(*value),
        survives(*value, MAX_JSON_DEPTH as nat) ==> reads_back(text@, *value),
{
    value.to_string()
}

/// `serde_json::to_value` for bytes: the array of the numbers that they are.
#[verifier::external_body]
pub(crate) fn bytes_to_value(bytes: Vec<u8>) -> (value: Result<
    serde_json::Value,
    serde_json::Error,
>)
    ensures
        value is Ok,
        is_byte_array(json_view(value->Ok_0), bytes@),
{
    serde_json::to_value(bytes)
}

/// `serde_json::to_vec` for the items of an array: it succeeds, for the keys of JSON values
/// are strings and nothing else can fail in memory. The bytes depend on the items alone, and
/// are named [`array_bytes`].
#[verifier::external_body]
pub(crate) fn array_to_vec(items: &Vec<serde_json::Value>) -> (bytes: Result<
    Vec<u8>,
    serde_json::Error,
>)
    ensures
        bytes is Ok,
        bytes->Ok_0@ == array_bytes(items@),
{
    serde_json::to_vec(items)
}

/// `serde_json::to_vec` for an object: it succeeds, for the keys of JSON values are strings
/// and nothing else can fail in memory. The bytes depend on the object alone, and are named
/// [`object_bytes`].
#[verifier::external_body]
pub(crate) fn object_to_vec(object: &serde_json::Map<String, serde_json::Value>) -> (bytes: Result<
    Vec<u8>,
    serde_json::Error,
>)
    ensures
        bytes is Ok,
        bytes->Ok_0@ == object_bytes(*object),
{
    serde_json::to_vec(object)
}

/// `to_string` through the `Display` of `serde_json::Error`: the text depends on the error
/// alone, and is named [`json_error_text`].
#[verifier::external_body]
pub(crate) fn json_error_to_text(error: &serde_json::Error) -> (text: String)
    ensures
        text@ == json_error_text(*error),
{
    error.to_string()
}

/// `serde_json::Map::new`: an object without entries.
#[verifier::external_body]
pub(crate) fn empty_object() -> (object: serde_json::Map<String, serde_json::Value>)
    ensures
        object_entries(object).is_empty(),
{
    serde_json::Map::new()
}

/// `serde_json::Map::insert`: the key has the value from now on, also where it had
/// another one before; every other entry stays.
#[verifier::external_body]
pub(crate) fn insert_entry(
    object: &mut serde_json::Map<String, serde_json::Value>,
    key: String,
    value: serde_json::Value,
)
    ensures
        object_entries(*final(object)) == object_entries(*old(object)).insert(key@, value),
{
    object.insert(key, value);
}

} // verus!
