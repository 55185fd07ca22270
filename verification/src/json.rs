//! A JSON document as plain values, with its mathematical view.

use serde_json::{Number, Value};
use vstd::prelude::*;

verus! {

/// The mathematical value of a JSON document.
pub ghost enum JsonValue {
    Null,
    Bool(bool),
    /// A number that is an integer.
    Int(int),
    /// Any other number, by its decimal text.
    Real(Seq<char>),
    Str(Seq<char>),
    Array(Seq<JsonValue>),
    /// The members in the order of the document.
    Object(Seq<MemberValue>),
}

/// One member of an object's value: a name and what it names.
pub ghost struct MemberValue {
    pub name: Seq<char>,
    pub value: JsonValue,
}

/// A JSON document held as plain values.
#[derive(Debug, PartialEq, Eq)]
pub enum Json {
    Null,
    Bool(bool),
    /// An integer that an `i64` holds.
    Int(i64),
    /// An integer that a `u64` holds; a parsed document has it only above `i64::MAX`.
    Uint(u64),
    /// Any other number, by its decimal text.
    Real(String),
    Str(String),
    Array(Vec<Json>),
    /// The members in the order of the document.
    Object(Vec<Member>),
}

/// One member of an object: a name and what it names.
#[derive(Debug, PartialEq, Eq)]
pub struct Member {
    pub name: String,
    pub value: Json,
}

impl View for Json {
    type V = JsonValue;

    open spec fn view(&self) -> JsonValue
        decreases self,
    {
        match self {
            Json::Null => JsonValue::Null,
            Json::Bool(b) => JsonValue::Bool(*b),
            Json::Int(i) => JsonValue::Int(*i as int),
            Json::Uint(u) => JsonValue::Int(*u as int),
            Json::Real(s) => JsonValue::Real(s@),
            Json::Str(s) => JsonValue::Str(s@),
            Json::Array(items) => JsonValue::Array(
                Seq::new(items@.len(), |i: int| if 0 <= i < items@.len() { items@[i].view() } else { JsonValue::Null }),
            ),
            Json::Object(fields) => JsonValue::Object(
                Seq::new(
                    fields@.len(),
                    |i: int|
                        if 0 <= i < fields@.len() {
                            MemberValue { name: fields@[i].name@, value: fields@[i].value.view() }
                        } else {
                            MemberValue { name: Seq::empty(), value: JsonValue::Null }
                        },
                ),
            ),
        }
    }
}

/// `serde_json::Value`, carried through opaquely between the parser and this model.
#[verifier::external_type_specification]
#[verifier::external_body]
pub struct ExValue(Value);

/// `serde_json::Number`, carried through opaquely.
#[verifier::external_type_specification]
#[verifier::external_body]
pub struct ExNumber(Number);

/// What `serde_json::from_str::<serde_json::Value>` makes of a text: `None` where it
/// reports an error.
pub uninterp spec fn json_of_text(text: Seq<char>) -> Option<JsonValue>;

/// The text that `serde_json::to_string` writes for a document.
pub uninterp spec fn text_of_json(value: JsonValue) -> Seq<char>;

/// Whether `serde_json::from_str::<serde_json::Number>` reads the text as one number.
pub uninterp spec fn is_number_text(text: Seq<char>) -> bool;

/// Whether every `Real` in the document holds the text of a number.
pub open spec fn printable(v: JsonValue) -> bool
    decreases v,
{
    match v {
        JsonValue::Real(t) => is_number_text(t),
        JsonValue::Array(items) => forall|i: int|
            0 <= i < items.len() ==> printable(#[trigger] items[i]),
        JsonValue::Object(fields) => forall|i: int|
            0 <= i < fields.len() ==> printable((#[trigger] fields[i]).value),
        _ => true,
    }
}

/// The document with `null` in the place of every `Real` whose text is no number.
pub open spec fn cleaned(v: JsonValue) -> JsonValue
    decreases v,
{
    match v {
        JsonValue::Real(t) => if is_number_text(t) {
            v
        } else {
            JsonValue::Null
        },
        JsonValue::Array(items) => JsonValue::Array(
            Seq::new(
                items.len(),
                |i: int|
                    if 0 <= i < items.len() {
                        cleaned(items[i])
                    } else {
                        JsonValue::Null
                    },
            ),
        ),
        JsonValue::Object(fields) => JsonValue::Object(
            Seq::new(
                fields.len(),
                |i: int|
                    if 0 <= i < fields.len() {
                        MemberValue { name: fields[i].name, value: cleaned(fields[i].value) }
                    } else {
                        MemberValue { name: Seq::empty(), value: JsonValue::Null }
                    },
            ),
        ),
        _ => v,
    }
}

/// Calls `serde_json::from_str` for a `serde_json::Number` and says whether it read
/// one.
#[verifier::external_body]
fn reads_as_number(text: &str) -> (r: bool)
    ensures
        r == is_number_text(text@),
{
    serde_json::from_str::<Number>(text).is_ok()
}

/// Moves a `serde_json::Number` into the model: `as_i64` where it answers, else
/// `as_u64`, else the number's own decimal text.
#[verifier::external_body]
fn number_to_json(n: &Number) -> Json {
    match (n.as_i64(), n.as_u64()) {
        (Some(i), _) => Json::Int(i),
        (None, Some(u)) => Json::Uint(u),
        (None, None) => Json::Real(n.to_string()),
    }
}

/// Moves a `serde_json::Value` into the model, variant by variant, object members in
/// the order in which the map hands them out.
#[verifier::external_body]
fn value_to_json(v: &Value) -> Json {
    match v {
        Value::Null => Json::Null,
        Value::Bool(b) => Json::Bool(*b),
        Value::Number(n) => number_to_json(n),
        Value::String(s) => Json::Str(s.clone()),
        Value::Array(a) => Json::Array(a.iter().map(value_to_json).collect()),
        Value::Object(m) => Json::Object(
            m.iter().map(|(k, x)| Member { name: k.clone(), value: value_to_json(x) }).collect(),
        ),
    }
}

/// Calls `serde_json::from_str` for a `serde_json::Value`. The result is the named
/// value of the text: the parser reads nothing but its argument.
#[verifier::external_body]
pub(crate) fn parse_text(text: &str) -> (r: Option<Json>)
    ensures
        match r {
            Some(j) => json_of_text(text@) == Some(j@),
            None => json_of_text(text@) is None,
        },
{
    match serde_json::from_str::<Value>(text) {
        Ok(v) => Some(value_to_json(&v)),
        Err(_) => None,
    }
}

/// Moves a model document into a `serde_json::Value`, variant by variant; a `Real` by
/// `serde_json::from_str` for a `serde_json::Number`. It is called on printable
/// documents only.
#[verifier::external_body]
fn json_to_value(j: &Json) -> Value {
    match j {
        Json::Null => Value::Null,
        Json::Bool(b) => Value::Bool(*b),
        Json::Int(i) => Value::Number(Number::from(*i)),
        Json::Uint(u) => Value::Number(Number::from(*u)),
        Json::Real(s) => serde_json::from_str(s).map(Value::Number).unwrap_or_default(),
        Json::Str(s) => Value::String(s.clone()),
        Json::Array(a) => Value::Array(a.iter().map(json_to_value).collect()),
        Json::Object(m) => Value::Object(
            m.iter().map(|f| (f.name.clone(), json_to_value(&f.value))).collect(),
        ),
    }
}

/// Calls `serde_json::to_string` on a printable document. The result is the named
/// text of the document's value: the writer reads nothing but its argument.
#[verifier::external_body]
pub(crate) fn print_text(j: &Json) -> (r: String)
    requires
        printable(j@),
    ensures
        r@ == text_of_json(j@),
{
    serde_json::to_string(&json_to_value(j)).unwrap_or_default()
}

/// The first member named `key` at or after position `i`, if there is one.
pub open spec fn member_from(fields: Seq<MemberValue>, key: Seq<char>, i: int) -> Option<
    JsonValue,
>
    decreases fields.len() - i,
{
    if i < 0 || i >= fields.len() {
        None
    } else if fields[i].name == key {
        Some(fields[i].value)
    } else {
        member_from(fields, key, i + 1)
    }
}

impl JsonValue {
    /// The value of the first member named `key`, where this is an object that has one.
    pub open spec fn member(self, key: Seq<char>) -> Option<JsonValue> {
        match self {
            JsonValue::Object(fields) => member_from(fields, key, 0),
            _ => None,
        }
    }

    /// The text, where this is a string.
    pub open spec fn text(self) -> Option<Seq<char>> {
        match self {
            JsonValue::Str(s) => Some(s),
            _ => None,
        }
    }

    /// The number, where this is an integer.
    pub open spec fn integer(self) -> Option<int> {
        match self {
            JsonValue::Int(n) => Some(n),
            _ => None,
        }
    }

    /// The truth value, where this is `true` or `false`.
    pub open spec fn boolean(self) -> Option<bool> {
        match self {
            JsonValue::Bool(b) => Some(b),
            _ => None,
        }
    }

    /// The elements, where this is an array.
    pub open spec fn items(self) -> Option<Seq<JsonValue>> {
        match self {
            JsonValue::Array(items) => Some(items),
            _ => None,
        }
    }
}

/// The values of a run of documents.
pub open spec fn values_of(items: Seq<Json>) -> Seq<JsonValue> {
    Seq::new(items.len(), |i: int| items[i]@)
}

/// The names and values of a run of object members.
pub open spec fn members_of(fields: Seq<Member>) -> Seq<MemberValue> {
    Seq::new(fields.len(), |i: int| MemberValue { name: fields[i].name@, value: fields[i].value@ })
}

/// The value of an optional document.
pub open spec fn value_of(j: Option<&Json>) -> Option<JsonValue> {
    match j {
        Some(j) => Some(j@),
        None => None,
    }
}

/// An array's value is the array of its elements' values.
pub proof fn lemma_array_value(items: Vec<Json>)
    ensures
        Json::Array(items)@ == JsonValue::Array(values_of(items@)),
{
    assert(Json::Array(items)@->Array_0 =~= values_of(items@));
}

/// An object's value is the object of its members' names and values.
pub proof fn lemma_object_value(fields: Vec<Member>)
    ensures
        Json::Object(fields)@ == JsonValue::Object(members_of(fields@)),
{
    assert(Json::Object(fields)@->Object_0 =~= members_of(fields@));
}

impl Json {
    /// The first member named `key`, where this is an object that has one.
    pub fn get(&self, key: &str) -> (r: Option<&Json>)
        ensures
            value_of(r) == self@.member(key@),
    {
        match self {
            Json::Object(fields) => {
                proof {
                    lemma_object_value(*fields);
                }
                let mut i: usize = 0;
                while i < fields.len()
                    invariant
                        i <= fields.len(),
                        self@.member(key@) == member_from(members_of(fields@), key@, i as int),
                    decreases fields.len() - i,
                {
                    if crate::text::same_text(fields[i].name.as_str(), key) {
                        return Some(&fields[i].value);
                    }
                    i = i + 1;
                }
                None
            },
            _ => None,
        }
    }

    /// The text, where this is a string.
    pub fn as_str(&self) -> (r: Option<&String>)
        ensures
            match r {
                Some(s) => self@.text() == Some(s@),
                None => self@.text() is None,
            },
    {
        match self {
            Json::Str(s) => Some(s),
            _ => None,
        }
    }

    /// The number, where this is an integer that an `i64` holds.
    pub fn as_i64(&self) -> (r: Option<i64>)
        ensures
            match r {
                Some(n) => self@.integer() == Some(n as int),
                None => !(self@.integer() matches Some(n) && i64::MIN <= n <= i64::MAX),
            },
    {
        match self {
            Json::Int(n) => Some(*n),
            Json::Uint(n) => if *n <= 0x7fff_ffff_ffff_ffff {
                Some(*n as i64)
            } else {
                None
            },
            _ => None,
        }
    }

    /// The number, where this is an integer that a `u64` holds.
    pub fn as_u64(&self) -> (r: Option<u64>)
        ensures
            match r {
                Some(n) => self@.integer() == Some(n as int),
                None => !(self@.integer() matches Some(n) && 0 <= n <= u64::MAX),
            },
    {
        match self {
            Json::Int(n) => if *n >= 0 {
                Some(*n as u64)
            } else {
                None
            },
            Json::Uint(n) => Some(*n),
            _ => None,
        }
    }

    /// The truth value, where this is `true` or `false`.
    pub fn as_bool(&self) -> (r: Option<bool>)
        ensures
            r == self@.boolean(),
    {
        match self {
            Json::Bool(b) => Some(*b),
            _ => None,
        }
    }

    /// The elements, where this is an array.
    pub fn as_array(&self) -> (r: Option<&Vec<Json>>)
        ensures
            match r {
                Some(items) => self@.items() == Some(values_of(items@)),
                None => self@.items() is None,
            },
    {
        match self {
            Json::Array(items) => {
                proof {
                    lemma_array_value(*items);
                }
                Some(items)
            },
            _ => None,
        }
    }

    /// Reads a JSON text. `None` where the text is not one JSON document.
    pub fn parse(text: &str) -> (r: Option<Json>)
        ensures
            match r {
                Some(j) => json_of_text(text@) == Some(j@),
                None => json_of_text(text@) is None,
            },
    {
        parse_text(text)
    }

    /// A copy of the document with `null` in the place of every `Real` whose text is
    /// no number.
    pub fn to_printable(&self) -> (r: Json)
        ensures
            r@ == cleaned(self@),
            printable(r@),
        decreases self,
    {
        match self {
            Json::Null => Json::Null,
            Json::Bool(b) => Json::Bool(*b),
            Json::Int(n) => Json::Int(*n),
            Json::Uint(n) => Json::Uint(*n),
            Json::Real(t) => if reads_as_number(t.as_str()) {
                Json::Real(t.clone())
            } else {
                Json::Null
            },
            Json::Str(t) => Json::Str(t.clone()),
            Json::Array(items) => {
                proof {
                    lemma_array_value(*items);
                }
                let mut out: Vec<Json> = Vec::new();
                let mut i: usize = 0;
                while i < items.len()
                    invariant
                        i <= items.len(),
                        *self == Json::Array(*items),
                        out@.len() == i,
                        forall|k: int| 0 <= k < i ==> (#[trigger] out@[k])@ == cleaned(items@[k]@),
                        forall|k: int| 0 <= k < i ==> printable((#[trigger] out@[k])@),
                    decreases items.len() - i,
                {
                    let item = &items[i];
                    assert(decreases_to!(*self => *item)) by {
                        vstd::std_specs::vec::axiom_vec_index_decreases(*items, i as int);
                        assert(decreases_to!(*self => self->Array_0));
                    }
                    out.push(item.to_printable());
                    i = i + 1;
                }
                proof {
                    lemma_array_value(out);
                    assert(values_of(out@) =~= cleaned(self@)->Array_0);
                }
                Json::Array(out)
            },
            Json::Object(fields) => {
                proof {
                    lemma_object_value(*fields);
                }
                let mut out: Vec<Member> = Vec::new();
                let mut i: usize = 0;
                while i < fields.len()
                    invariant
                        i <= fields.len(),
                        *self == Json::Object(*fields),
                        out@.len() == i,
                        forall|k: int|
                            0 <= k < i ==> (#[trigger] out@[k]).name@ == fields@[k].name@ && out@[k].value@
                                == cleaned(fields@[k].value@),
                        forall|k: int| 0 <= k < i ==> printable((#[trigger] out@[k]).value@),
                    decreases fields.len() - i,
                {
                    let field = &fields[i];
                    assert(decreases_to!(*self => field.value)) by {
                        vstd::std_specs::vec::axiom_vec_index_decreases(*fields, i as int);
                        assert(decreases_to!(*self => self->Object_0));
                        assert(decreases_to!(*field => field.value));
                    }
                    out.push(Member { name: field.name.clone(), value: field.value.to_printable() });
                    i = i + 1;
                }
                proof {
                    lemma_object_value(out);
                    assert(members_of(out@) =~= cleaned(self@)->Object_0);
                }
                Json::Object(out)
            },
        }
    }

    /// Writes the document as JSON text. A `Real` whose text is no number is written as
    /// `null`; a document without one is written as it is.
    pub fn to_text(&self) -> (r: String)
        ensures
            r@ == text_of_json(cleaned(self@)),
            printable(self@) ==> r@ == text_of_json(self@),
    {
        proof {
            if printable(self@) {
                lemma_cleaned_printable(self@);
            }
        }
        print_text(&self.to_printable())
    }
}

/// Cleaning leaves a printable document as it is.
pub proof fn lemma_cleaned_printable(v: JsonValue)
    requires
        printable(v),
    ensures
        cleaned(v) == v,
    decreases v,
{
    match v {
        JsonValue::Array(items) => {
            assert forall|i: int| 0 <= i < items.len() implies cleaned(items[i]) == items[i] by {
                lemma_cleaned_printable(items[i]);
            }
            assert(cleaned(v)->Array_0 =~= items);
        },
        JsonValue::Object(fields) => {
            assert forall|i: int| 0 <= i < fields.len() implies cleaned(fields[i].value)
                == fields[i].value by {
                lemma_cleaned_printable(fields[i].value);
            }
            assert(cleaned(v)->Object_0 =~= fields);
        },
        _ => {},
    }
}

} // verus!
