//! JSON documents as plain data, their mathematical content, and how they
//! are read from text and written as text.

use vstd::prelude::*;

verus! {

/// A JSON number as it is held in memory.
#[derive(Debug, PartialEq, Eq)]
pub enum JsonNumber {
    /// An integer that is not negative.
    PosInt(u64),
    /// An integer below zero. One that is not below zero is taken as the
    /// integer that it holds.
    NegInt(i64),
    /// The decimal text of a number that is no integer of 64 bits. Text that
    /// is no number is written as `null`.
    Float(String),
}

/// The mathematical content of a [`JsonNumber`].
pub enum NumberValue {
    Int(int),
    Float(Seq<char>),
}

impl View for JsonNumber {
    type V = NumberValue;

    open spec fn view(&self) -> NumberValue {
        match self {
            JsonNumber::PosInt(u) => NumberValue::Int(*u as int),
            JsonNumber::NegInt(i) => NumberValue::Int(*i as int),
            JsonNumber::Float(text) => NumberValue::Float(text@),
        }
    }
}

/// A JSON document held as plain data.
///
/// An object is a list of fields; where a key occurs more than once the last
/// occurrence is the one that counts.
#[derive(Debug, PartialEq, Eq)]
pub enum Json {
    Null,
    Bool(bool),
    Num(JsonNumber),
    Str(String),
    Array(Vec<Json>),
    Object(Vec<(String, Json)>),
}

/// The mathematical content of a [`Json`]: arrays are sequences, objects are
/// maps from keys to values.
pub enum JsonValue {
    Null,
    Bool(bool),
    Num(NumberValue),
    Str(Seq<char>),
    Array(Seq<JsonValue>),
    Object(Map<Seq<char>, JsonValue>),
}

/// The values of a list of documents, in order.
pub open spec fn items_view(items: Seq<Json>) -> Seq<JsonValue>
    decreases items,
{
    if items.len() == 0 {
        Seq::empty()
    } else {
        items_view(items.drop_last()).push(items.last()@)
    }
}

/// The map that a list of fields stands for: later fields override earlier
/// ones with the same key.
pub open spec fn fields_view(fields: Seq<(String, Json)>) -> Map<Seq<char>, JsonValue>
    decreases fields,
{
    if fields.len() == 0 {
        Map::empty()
    } else {
        fields_view(fields.drop_last()).insert(fields.last().0@, fields.last().1@)
    }
}

impl View for Json {
    type V = JsonValue;

    open spec fn view(&self) -> JsonValue
        decreases self,
    {
        match self {
            Json::Null => JsonValue::Null,
            Json::Bool(b) => JsonValue::Bool(*b),
            Json::Num(n) => JsonValue::Num(n@),
            Json::Str(s) => JsonValue::Str(s@),
            Json::Array(items) => JsonValue::Array(items_view(items@)),
            Json::Object(fields) => JsonValue::Object(fields_view(fields@)),
        }
    }
}

impl JsonValue {
    /// The fields of an object; no fields for any other value.
    pub open spec fn fields(self) -> Map<Seq<char>, JsonValue> {
        match self {
            JsonValue::Object(fields) => fields,
            _ => Map::empty(),
        }
    }

    /// The value under `key`, where this is an object that has the key.
    pub open spec fn field(self, key: Seq<char>) -> Option<JsonValue> {
        if self.fields().contains_key(key) {
            Some(self.fields()[key])
        } else {
            None
        }
    }

    /// The characters of a string value.
    pub open spec fn text(self) -> Option<Seq<char>> {
        match self {
            JsonValue::Str(s) => Some(s),
            _ => None,
        }
    }

    /// The number, where this is an integer that fits into 64 bits unsigned.
    pub open spec fn unsigned(self) -> Option<u64> {
        match self {
            JsonValue::Num(NumberValue::Int(i)) if 0 <= i <= u64::MAX => Some(i as u64),
            _ => None,
        }
    }

    /// The number, where this is an integer that fits into 64 bits signed.
    pub open spec fn signed(self) -> Option<i64> {
        match self {
            JsonValue::Num(NumberValue::Int(i)) if i64::MIN <= i <= i64::MAX => Some(i as i64),
            _ => None,
        }
    }

    /// The truth value of a boolean.
    pub open spec fn truth(self) -> Option<bool> {
        match self {
            JsonValue::Bool(b) => Some(b),
            _ => None,
        }
    }

    /// The items of an array.
    pub open spec fn items(self) -> Option<Seq<JsonValue>> {
        match self {
            JsonValue::Array(items) => Some(items),
            _ => None,
        }
    }

    /// The object with no fields.
    pub open spec fn empty_object() -> JsonValue {
        JsonValue::Object(Map::empty())
    }

    /// This value as an object, with `key` set to `value`.
    pub open spec fn with(self, key: Seq<char>, value: JsonValue) -> JsonValue {
        JsonValue::Object(self.fields().insert(key, value))
    }
}

/// `items_view` keeps the length and maps item by item.
pub proof fn lemma_items_view(items: Seq<Json>)
    ensures
        items_view(items).len() == items.len(),
        forall|i: int| 0 <= i < items.len() ==> #[trigger] items_view(items)[i] == items[i]@,
    decreases items.len(),
{
    if items.len() > 0 {
        let front = items.drop_last();
        assert(items_view(items) == items_view(front).push(items.last()@));
        lemma_items_view(front);
        assert forall|i: int| 0 <= i < items.len() implies #[trigger] items_view(items)[i]
            == items[i]@ by {}
    }
}

/// Pushing a document pushes its value.
pub proof fn lemma_items_view_push(items: Seq<Json>, item: Json)
    ensures
        items_view(items.push(item)) == items_view(items).push(item@),
{
    assert(items.push(item).drop_last() =~= items);
}

/// Pushing a field sets its key.
pub proof fn lemma_fields_view_push(fields: Seq<(String, Json)>, field: (String, Json))
    ensures
        fields_view(fields.push(field)) == fields_view(fields).insert(field.0@, field.1@),
{
    assert(fields.push(field).drop_last() =~= fields);
}

/// The last field with a key is the one that the map holds.
pub proof fn lemma_fields_view_found(fields: Seq<(String, Json)>, key: Seq<char>, i: int)
    requires
        0 <= i < fields.len(),
        fields[i].0@ == key,
        forall|j: int| i < j < fields.len() ==> (#[trigger] fields[j]).0@ != key,
    ensures
        fields_view(fields).contains_key(key),
        fields_view(fields)[key] == fields[i].1@,
    decreases fields.len(),
{
    let last = fields[fields.len() - 1];
    let front = fields.drop_last();
    assert(fields_view(fields) == fields_view(front).insert(last.0@, last.1@));
    if i < fields.len() - 1 {
        assert forall|j: int| i < j < front.len() implies (#[trigger] front[j]).0@ != key by {}
        lemma_fields_view_found(front, key, i);
    }
}

/// A key that no field has is not in the map.
pub proof fn lemma_fields_view_absent(fields: Seq<(String, Json)>, key: Seq<char>)
    requires
        forall|j: int| 0 <= j < fields.len() ==> (#[trigger] fields[j]).0@ != key,
    ensures
        !fields_view(fields).contains_key(key),
    decreases fields.len(),
{
    if fields.len() > 0 {
        let last = fields[fields.len() - 1];
        let front = fields.drop_last();
        assert(fields_view(fields) == fields_view(front).insert(last.0@, last.1@));
        assert forall|j: int| 0 <= j < front.len() implies (#[trigger] front[j]).0@ != key by {}
        lemma_fields_view_absent(front, key);
    }
}

impl Clone for JsonNumber {
    fn clone(&self) -> (r: JsonNumber)
        ensures
            r@ == self@,
    {
        match self {
            JsonNumber::PosInt(u) => JsonNumber::PosInt(*u),
            JsonNumber::NegInt(i) => JsonNumber::NegInt(*i),
            JsonNumber::Float(text) => JsonNumber::Float(text.clone()),
        }
    }
}

impl Clone for Json {
    fn clone(&self) -> (r: Json)
        ensures
            r@ == self@,
        decreases self,
    {
        match self {
            Json::Null => Json::Null,
            Json::Bool(b) => Json::Bool(*b),
            Json::Num(n) => Json::Num(n.clone()),
            Json::Str(s) => Json::Str(s.clone()),
            Json::Array(items) => {
                let mut copy: Vec<Json> = Vec::new();
                let mut i: usize = 0;
                while i < items.len()
                    invariant
                        i <= items@.len(),
                        items_view(copy@) == items_view(items@.take(i as int)),
                        *self == Json::Array(*items),
                    decreases items@.len() - i,
                {
                    assert(decreases_to!(*self => self->Array_0));
                    let item = items[i].clone();
                    proof {
                        lemma_items_view_push(copy@, item);
                        lemma_items_view_push(items@.take(i as int), items@[i as int]);
                        assert(items@.take(i as int).push(items@[i as int]) =~= items@.take(
                            i as int + 1,
                        ));
                    }
                    copy.push(item);
                    i = i + 1;
                }
                assert(items@.take(i as int) =~= items@);
                Json::Array(copy)
            },
            Json::Object(fields) => {
                let mut copy: Vec<(String, Json)> = Vec::new();
                let mut i: usize = 0;
                while i < fields.len()
                    invariant
                        i <= fields@.len(),
                        fields_view(copy@) == fields_view(fields@.take(i as int)),
                        *self == Json::Object(*fields),
                    decreases fields@.len() - i,
                {
                    assert(decreases_to!(*self => self->Object_0));
                    let field = (fields[i].0.clone(), fields[i].1.clone());
                    proof {
                        lemma_fields_view_push(copy@, field);
                        lemma_fields_view_push(fields@.take(i as int), fields@[i as int]);
                        assert(fields@.take(i as int).push(fields@[i as int]) =~= fields@.take(
                            i as int + 1,
                        ));
                    }
                    copy.push(field);
                    i = i + 1;
                }
                assert(fields@.take(i as int) =~= fields@);
                Json::Object(copy)
            },
        }
    }
}

/// `str::eq`: two strings are equal exactly when they hold the same
/// characters.
#[verifier::external_body]
pub(crate) fn str_eq(a: &str, b: &str) -> (r: bool)
    ensures
        r == (a@ == b@),
{
    a == b
}

/// `serde_json::Value`, of which nothing is known here: it only passes from
/// one conversion to the next.
#[verifier::external_type_specification]
#[verifier::external_body]
pub struct ExValue(serde_json::Value);

/// `serde_json::Number`, of which nothing is known here either.
#[verifier::external_type_specification]
#[verifier::external_body]
pub struct ExNumber(serde_json::Number);

/// What `serde_json::from_str` makes of a text: the document that the text
/// spells, or nothing where the text is not one JSON document.
pub uninterp spec fn parsed(text: Seq<char>) -> Option<JsonValue>;

/// The compact text that `serde_json::to_string` writes for a document, or
/// nothing where it gives up.
pub uninterp spec fn printed(value: JsonValue) -> Option<Seq<char>>;

/// A `serde_json::Number` as the library holds it: `as_u64` decides for
/// `PosInt`, `as_i64` for `NegInt`, and what is left keeps the text that
/// `to_string` gives it.
#[verifier::external_body]
fn number_from_serde(n: &serde_json::Number) -> JsonNumber {
    match (n.as_u64(), n.as_i64()) {
        (Some(u), _) => JsonNumber::PosInt(u),
        (None, Some(i)) => JsonNumber::NegInt(i),
        (None, None) => JsonNumber::Float(n.to_string()),
    }
}

/// A `serde_json::Value` as the library holds it, variant by variant; the
/// fields of an object come in the order in which its map hands them out.
#[verifier::external_body]
fn json_from_serde(value: serde_json::Value) -> Json {
    match value {
        serde_json::Value::Null => Json::Null,
        serde_json::Value::Bool(b) => Json::Bool(b),
        serde_json::Value::Number(n) => Json::Num(number_from_serde(&n)),
        serde_json::Value::String(s) => Json::Str(s),
        serde_json::Value::Array(a) => Json::Array(a.into_iter().map(json_from_serde).collect()),
        serde_json::Value::Object(o) => Json::Object(
            o.into_iter().map(|(k, v)| (k, json_from_serde(v))).collect(),
        ),
    }
}

/// A number of the library as a `serde_json::Value`. The text of a `Float`
/// goes through `serde_json::from_str`; text that is no number becomes
/// `null`.
#[verifier::external_body]
fn number_to_serde(n: &JsonNumber) -> serde_json::Value {
    match n {
        JsonNumber::PosInt(u) => serde_json::Value::from(*u),
        JsonNumber::NegInt(i) => serde_json::Value::from(*i),
        JsonNumber::Float(text) => serde_json::from_str::<serde_json::Number>(text).map_or(
            serde_json::Value::Null,
            serde_json::Value::Number,
        ),
    }
}

/// A document of the library as a `serde_json::Value`, variant by variant;
/// the fields of an object go into the map by `serde_json::Map::insert`, in
/// order, so that the last of two equal keys stays.
#[verifier::external_body]
fn json_to_serde(json: &Json) -> serde_json::Value {
    match json {
        Json::Null => serde_json::Value::Null,
        Json::Bool(b) => serde_json::Value::Bool(*b),
        Json::Num(n) => number_to_serde(n),
        Json::Str(s) => serde_json::Value::String(s.clone()),
        Json::Array(a) => serde_json::Value::Array(a.iter().map(json_to_serde).collect()),
        Json::Object(o) => {
            let mut map = serde_json::Map::new();
            for (k, v) in o {
                map.insert(k.clone(), json_to_serde(v));
            }
            serde_json::Value::Object(map)
        },
    }
}

/// `serde_json::from_str` at `serde_json::Value`: the document that `text`
/// spells, or `None` where `serde_json` reports an error.
#[verifier::external_body]
pub(crate) fn parse_text(text: &str) -> (r: Option<Json>)
    ensures
        match r {
            Some(json) => parsed(text@) == Some(json@),
            None => parsed(text@) is None,
        },
{
    serde_json::from_str::<serde_json::Value>(text).ok().map(json_from_serde)
}

/// `serde_json::to_string` on the document as a `serde_json::Value`: its
/// compact text, in which no line break occurs, or `None` where `serde_json`
/// reports an error.
#[verifier::external_body]
pub(crate) fn print_text(json: &Json) -> (r: Option<String>)
    ensures
        match r {
            Some(text) => printed(json@) == Some(text@) && !text@.contains('\n'),
            None => printed(json@) is None,
        },
{
    serde_json::to_string(&json_to_serde(json)).ok()
}

impl Json {
    /// Reads one JSON document from `text`.
    pub fn parse(text: &str) -> (r: Option<Json>)
        ensures
            match r {
                Some(json) => parsed(text@) == Some(json@),
                None => parsed(text@) is None,
            },
    {
        parse_text(text)
    }

    /// Writes this document as compact JSON text on one line.
    pub fn print(&self) -> (r: Option<String>)
        ensures
            match r {
                Some(text) => printed(self@) == Some(text@) && !text@.contains('\n'),
                None => printed(self@) is None,
            },
    {
        print_text(self)
    }

    /// The object with no fields.
    pub fn object() -> (r: Json)
        ensures
            r@ == JsonValue::empty_object(),
    {
        Json::Object(Vec::new())
    }

    /// This document with `key` set to `value`. A document that is no object
    /// counts as the empty object.
    pub fn with(self, key: &str, value: Json) -> (r: Json)
        ensures
            r@ == self@.with(key@, value@),
    {
        let mut fields = match self {
            Json::Object(fields) => fields,
            _ => Vec::new(),
        };
        let field = (key.to_owned(), value);
        proof {
            lemma_fields_view_push(fields@, field);
        }
        fields.push(field);
        Json::Object(fields)
    }

    /// A string value.
    pub fn text(s: &str) -> (r: Json)
        ensures
            r@ == JsonValue::Str(s@),
    {
        Json::Str(s.to_owned())
    }

    /// An unsigned integer.
    pub fn from_u64(n: u64) -> (r: Json)
        ensures
            r@ == JsonValue::Num(NumberValue::Int(n as int)),
    {
        Json::Num(JsonNumber::PosInt(n))
    }

    /// A signed integer.
    pub fn from_i64(n: i64) -> (r: Json)
        ensures
            r@ == JsonValue::Num(NumberValue::Int(n as int)),
    {
        if n >= 0 {
            Json::Num(JsonNumber::PosInt(n as u64))
        } else {
            Json::Num(JsonNumber::NegInt(n))
        }
    }

    /// The value under `key`, where this is an object that has the key.
    pub fn get(&self, key: &str) -> (r: Option<&Json>)
        ensures
            match r {
                Some(found) => self@.field(key@) == Some(found@),
                None => self@.field(key@) is None,
            },
    {
        match self {
            Json::Object(fields) => {
                let mut i: usize = fields.len();
                while i > 0
                    invariant
                        i <= fields@.len(),
                        self@ == JsonValue::Object(fields_view(fields@)),
                        forall|j: int| i <= j < fields@.len() ==> (#[trigger] fields@[j]).0@ != key@,
                    decreases i,
                {
                    i = i - 1;
                    if str_eq(fields[i].0.as_str(), key) {
                        proof {
                            lemma_fields_view_found(fields@, key@, i as int);
                        }
                        return Some(&fields[i].1);
                    }
                }
                proof {
                    lemma_fields_view_absent(fields@, key@);
                }
                None
            },
            _ => None,
        }
    }

    /// The characters of a string value.
    pub fn as_str(&self) -> (r: Option<&str>)
        ensures
            match r {
                Some(s) => self@.text() == Some(s@),
                None => self@.text() is None,
            },
    {
        match self {
            Json::Str(s) => Some(s.as_str()),
            _ => None,
        }
    }

    /// The number, where this is an integer that fits into 64 bits unsigned.
    pub fn as_u64(&self) -> (r: Option<u64>)
        ensures
            r == self@.unsigned(),
    {
        match self {
            Json::Num(JsonNumber::PosInt(n)) => Some(*n),
            Json::Num(JsonNumber::NegInt(n)) => if *n >= 0 {
                Some(*n as u64)
            } else {
                None
            },
            _ => None,
        }
    }

    /// The number, where this is an integer that fits into 64 bits signed.
    pub fn as_i64(&self) -> (r: Option<i64>)
        ensures
            r == self@.signed(),
    {
        match self {
            Json::Num(JsonNumber::PosInt(n)) => if *n <= 0x7fff_ffff_ffff_ffff {
                Some(*n as i64)
            } else {
                None
            },
            Json::Num(JsonNumber::NegInt(n)) => Some(*n),
            _ => None,
        }
    }

    /// The truth value of a boolean.
    pub fn as_bool(&self) -> (r: Option<bool>)
        ensures
            r == self@.truth(),
    {
        match self {
            Json::Bool(b) => Some(*b),
            _ => None,
        }
    }

    /// The items of an array.
    pub fn as_array(&self) -> (r: Option<&Vec<Json>>)
        ensures
            match r {
                Some(items) => self@.items() == Some(items_view(items@)),
                None => self@.items() is None,
            },
    {
        match self {
            Json::Array(items) => Some(items),
            _ => None,
        }
    }

    /// Whether this is an object.
    pub fn is_object(&self) -> (r: bool)
        ensures
            r == (self@ is Object),
    {
        match self {
            Json::Object(_) => true,
            _ => false,
        }
    }
}

} // verus!
