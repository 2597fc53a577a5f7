//! JSON documents as plain data. Reading and writing JSON text is left to
//! `serde_json`; everything that inspects or builds a document is verified
//! here against a mathematical model of the document.

use serde_json::{Number, Value};
use vstd::prelude::*;
use vstd::string::*;

verus! {

/// Mathematical model of a JSON document.
pub enum JsonValue {
    Null,
    Bool(bool),
    /// A number written without fraction or exponent.
    Integer(int),
    /// Any other number, by its text.
    Real(Seq<char>),
    Str(Seq<char>),
    Array(Seq<JsonValue>),
    /// Members in document order.
    Object(Seq<(Seq<char>, JsonValue)>),
}

/// A JSON document held in memory.
#[derive(Debug)]
pub enum Json {
    Null,
    Bool(bool),
    /// A non-negative integer.
    Unsigned(u64),
    /// An integer; documents that were read use it for negative ones only.
    Signed(i64),
    /// A number that is not an integer, by its text.
    Real(String),
    Str(String),
    Array(Vec<Json>),
    /// Members in document order.
    Object(Vec<(String, Json)>),
}

/// The model of a document held in memory.
pub open spec fn json_model(doc: Json) -> JsonValue
    decreases doc,
{
    match doc {
        Json::Null => JsonValue::Null,
        Json::Bool(b) => JsonValue::Bool(b),
        Json::Unsigned(u) => JsonValue::Integer(u as int),
        Json::Signed(i) => JsonValue::Integer(i as int),
        Json::Real(s) => JsonValue::Real(s@),
        Json::Str(s) => JsonValue::Str(s@),
        Json::Array(items) => JsonValue::Array(
            Seq::new(
                items.len() as nat,
                |i: int|
                    if 0 <= i < items.len() {
                        json_model(items[i])
                    } else {
                        JsonValue::Null
                    },
            ),
        ),
        Json::Object(members) => JsonValue::Object(
            Seq::new(
                members.len() as nat,
                |i: int|
                    if 0 <= i < members.len() {
                        (members[i].0@, json_model(members[i].1))
                    } else {
                        (Seq::empty(), JsonValue::Null)
                    },
            ),
        ),
    }
}

impl View for Json {
    type V = JsonValue;

    open spec fn view(&self) -> JsonValue {
        json_model(*self)
    }
}

/// The view of an optional document.
pub open spec fn json_opt_view(doc: Option<Json>) -> Option<JsonValue> {
    match doc {
        Some(j) => Some(j@),
        None => None,
    }
}

/// The view of an optional borrowed document.
pub open spec fn json_ref_view(doc: Option<&Json>) -> Option<JsonValue> {
    match doc {
        Some(j) => Some(j@),
        None => None,
    }
}

/// The view of an optional string.
pub open spec fn string_opt_view(text: Option<String>) -> Option<Seq<char>> {
    match text {
        Some(s) => Some(s@),
        None => None,
    }
}

/// The value of the first member at or after position `from` whose name is
/// `name`.
pub open spec fn lookup_from(
    members: Seq<(Seq<char>, JsonValue)>,
    name: Seq<char>,
    from: int,
) -> Option<JsonValue>
    decreases members.len() - from,
{
    if from < 0 || from >= members.len() {
        None
    } else if members[from].0 == name {
        Some(members[from].1)
    } else {
        lookup_from(members, name, from + 1)
    }
}

impl JsonValue {
    /// The value of the first member called `name`, where this is an object
    /// that has one.
    pub open spec fn field(self, name: Seq<char>) -> Option<JsonValue> {
        match self {
            JsonValue::Object(members) => lookup_from(members, name, 0),
            _ => None,
        }
    }

    /// The text, where this is a string.
    pub open spec fn as_str(self) -> Option<Seq<char>> {
        match self {
            JsonValue::Str(s) => Some(s),
            _ => None,
        }
    }

    /// The truth value, where this is a boolean.
    pub open spec fn as_bool(self) -> Option<bool> {
        match self {
            JsonValue::Bool(b) => Some(b),
            _ => None,
        }
    }

    /// The number, where this is an integer between `low` and `high`.
    pub open spec fn as_int_within(self, low: int, high: int) -> Option<int> {
        match self {
            JsonValue::Integer(n) => if low <= n <= high {
                Some(n)
            } else {
                None
            },
            _ => None,
        }
    }

    /// The items, where this is an array.
    pub open spec fn as_array(self) -> Option<Seq<JsonValue>> {
        match self {
            JsonValue::Array(items) => Some(items),
            _ => None,
        }
    }
}

/// A member that no earlier member shadows is the one `lookup_from` finds.
pub proof fn lemma_lookup_finds(
    members: Seq<(Seq<char>, JsonValue)>,
    name: Seq<char>,
    from: int,
    at: int,
)
    requires
        0 <= from <= at < members.len(),
        members[at].0 == name,
        forall|k: int| from <= k < at ==> members[k].0 != name,
    ensures
        lookup_from(members, name, from) == Some(members[at].1),
    decreases at - from,
{
    if from < at {
        lemma_lookup_finds(members, name, from + 1, at);
    }
}

/// A name that no member carries is not found.
pub proof fn lemma_lookup_misses(members: Seq<(Seq<char>, JsonValue)>, name: Seq<char>, from: int)
    requires
        0 <= from,
        forall|k: int| from <= k < members.len() ==> members[k].0 != name,
    ensures
        lookup_from(members, name, from) is None,
    decreases members.len() - from,
{
    if from < members.len() {
        lemma_lookup_misses(members, name, from + 1);
    }
}

/// What `serde_json::from_str` makes of a text, read as a
/// `serde_json::Value`: `None` where it reports an error.
pub uninterp spec fn json_parse(text: Seq<char>) -> Option<JsonValue>;

/// The compact text that `serde_json::to_string` writes for a document:
/// `None` where it reports an error.
pub uninterp spec fn json_text(doc: JsonValue) -> Option<Seq<char>>;

/// The indented text that `serde_json::to_string_pretty` writes for a
/// document: `None` where it reports an error.
pub uninterp spec fn json_text_pretty(doc: JsonValue) -> Option<Seq<char>>;

/// `serde_json::Value`, which the two copies below take and give. Nothing
/// is claimed of what it holds.
#[verifier::external_type_specification]
#[verifier::external_body]
pub struct ExValue(Value);

/// Copies a `serde_json::Value` into a `Json`, node for node. An integer
/// that `Number::as_u64` yields becomes `Unsigned`, one that only
/// `Number::as_i64` yields becomes `Signed`, and any other number is kept
/// as the text that its `Display` impl writes.
#[verifier::external_body]
fn json_from_value(value: Value) -> Json {
    match value {
        Value::Null => Json::Null,
        Value::Bool(b) => Json::Bool(b),
        Value::Number(n) => match (n.as_u64(), n.as_i64()) {
            (Some(u), _) => Json::Unsigned(u),
            (None, Some(i)) => Json::Signed(i),
            (None, None) => Json::Real(n.to_string()),
        },
        Value::String(s) => Json::Str(s),
        Value::Array(items) => Json::Array(items.into_iter().map(json_from_value).collect()),
        Value::Object(map) => Json::Object(
            map.into_iter().map(|(name, v)| (name, json_from_value(v))).collect(),
        ),
    }
}

/// Copies a `Json` into a `serde_json::Value`, node for node. The text of a
/// `Real` is read back with `Number::from_str`; where that refuses the
/// text, the node becomes `Value::Null`.
#[verifier::external_body]
fn json_to_value(doc: &Json) -> Value {
    match doc {
        Json::Null => Value::Null,
        Json::Bool(b) => Value::Bool(*b),
        Json::Unsigned(u) => Value::from(*u),
        Json::Signed(i) => Value::from(*i),
        Json::Real(s) => s.parse::<Number>().map_or(Value::Null, Value::Number),
        Json::Str(s) => Value::String(s.clone()),
        Json::Array(items) => Value::Array(items.iter().map(json_to_value).collect()),
        Json::Object(members) => Value::Object(
            members.iter().map(|(name, v)| (name.clone(), json_to_value(v))).collect(),
        ),
    }
}

/// `serde_json::from_str::<serde_json::Value>`, with the value copied into
/// a `Json`. The contract only gives the outcome its name, `json_parse`.
#[verifier::external_body]
fn read_document(text: &str) -> (doc: Option<Json>)
    ensures
        json_opt_view(doc) == json_parse(text@),
{
    serde_json::from_str::<Value>(text).ok().map(json_from_value)
}

/// `serde_json::to_string` on the document copied into a
/// `serde_json::Value`. The contract only gives the outcome its name,
/// `json_text`.
#[verifier::external_body]
fn write_document(doc: &Json) -> (text: Option<String>)
    ensures
        string_opt_view(text) == json_text(doc@),
{
    serde_json::to_string(&json_to_value(doc)).ok()
}

/// `serde_json::to_string_pretty` on the document copied into a
/// `serde_json::Value`. The contract only gives the outcome its name,
/// `json_text_pretty`.
#[verifier::external_body]
fn write_document_pretty(doc: &Json) -> (text: Option<String>)
    ensures
        string_opt_view(text) == json_text_pretty(doc@),
{
    serde_json::to_string_pretty(&json_to_value(doc)).ok()
}

impl Json {
    /// Reads a JSON text: `None` where the text is no JSON document.
    pub fn parse(text: &str) -> (doc: Option<Json>)
        ensures
            json_opt_view(doc) == json_parse(text@),
    {
        read_document(text)
    }

    /// Writes the document on one line: `None` where the writer refuses it.
    pub fn to_text(&self) -> (text: Option<String>)
        ensures
            string_opt_view(text) == json_text(self@),
    {
        write_document(self)
    }

    /// Writes the document with indentation: `None` where the writer
    /// refuses it.
    pub fn to_text_pretty(&self) -> (text: Option<String>)
        ensures
            string_opt_view(text) == json_text_pretty(self@),
    {
        write_document_pretty(self)
    }

    /// A JSON string holding `text`.
    pub fn string(text: &str) -> (doc: Json)
        ensures
            doc@ == JsonValue::Str(text@),
    {
        Json::Str(String::from_str(text))
    }

    /// A JSON integer.
    pub fn integer(n: i64) -> (doc: Json)
        ensures
            doc@ == JsonValue::Integer(n as int),
    {
        if n >= 0 {
            Json::Unsigned(n as u64)
        } else {
            Json::Signed(n)
        }
    }

    /// The value of the first member called `name`, where this is an object
    /// that has one.
    pub fn get<'a>(&'a self, name: &str) -> (found: Option<&'a Json>)
        ensures
            json_ref_view(found) == self@.field(name@),
    {
        match self {
            Json::Object(members) => {
                let wanted = String::from_str(name);
                let mut i: usize = 0;
                while i < members.len()
                    invariant
                        i <= members.len(),
                        wanted@ == name@,
                        self@ is Object,
                        self@->Object_0.len() == members.len(),
                        forall|k: int|
                            0 <= k < members.len() ==> #[trigger] self@->Object_0[k] == (
                                members[k].0@,
                                members[k].1@,
                            ),
                        self@.field(name@) == lookup_from(self@->Object_0, name@, i as int),
                    decreases members.len() - i,
                {
                    if members[i].0 == wanted {
                        return Some(&members[i].1);
                    }
                    i += 1;
                }
                None
            },
            _ => None,
        }
    }

    /// The text, where this is a string.
    pub fn as_string(&self) -> (text: Option<String>)
        ensures
            string_opt_view(text) == self@.as_str(),
    {
        match self {
            Json::Str(s) => Some(s.clone()),
            _ => None,
        }
    }

    /// The truth value, where this is a boolean.
    pub fn as_bool(&self) -> (b: Option<bool>)
        ensures
            b == self@.as_bool(),
    {
        match self {
            Json::Bool(b) => Some(*b),
            _ => None,
        }
    }

    /// The number, where this is an integer that fits `u64`.
    pub fn as_u64(&self) -> (n: Option<u64>)
        ensures
            n is Some <==> self@.as_int_within(0, u64::MAX as int) is Some,
            n matches Some(v) ==> self@.as_int_within(0, u64::MAX as int) == Some(v as int),
    {
        match self {
            Json::Unsigned(u) => Some(*u),
            Json::Signed(i) => if *i >= 0 {
                Some(*i as u64)
            } else {
                None
            },
            _ => None,
        }
    }

    /// The number, where this is an integer that fits `u32`.
    pub fn as_u32(&self) -> (n: Option<u32>)
        ensures
            n is Some <==> self@.as_int_within(0, u32::MAX as int) is Some,
            n matches Some(v) ==> self@.as_int_within(0, u32::MAX as int) == Some(v as int),
    {
        match self {
            Json::Unsigned(u) => if *u <= 0xffff_ffff {
                Some(*u as u32)
            } else {
                None
            },
            Json::Signed(i) => if 0 <= *i && *i <= 0xffff_ffff {
                Some(*i as u32)
            } else {
                None
            },
            _ => None,
        }
    }

    /// The number, where this is an integer that fits `i32`.
    pub fn as_i32(&self) -> (n: Option<i32>)
        ensures
            n is Some <==> self@.as_int_within(i32::MIN as int, i32::MAX as int) is Some,
            n matches Some(v) ==> self@.as_int_within(i32::MIN as int, i32::MAX as int) == Some(
                v as int,
            ),
    {
        match self {
            Json::Unsigned(u) => if *u <= 0x7fff_ffff {
                Some(*u as i32)
            } else {
                None
            },
            Json::Signed(i) => if -0x8000_0000 <= *i && *i <= 0x7fff_ffff {
                Some(*i as i32)
            } else {
                None
            },
            _ => None,
        }
    }

    /// The items, where this is an array.
    pub fn as_array(&self) -> (items: Option<&Vec<Json>>)
        ensures
            items is Some <==> self@.as_array() is Some,
            items matches Some(v) ==> self@.as_array() == Some(
                Seq::new(v.len() as nat, |i: int| v[i]@),
            ),
    {
        match self {
            Json::Array(items) => {
                assert(self@->Array_0 =~= Seq::new(items.len() as nat, |i: int| items[i]@));
                Some(items)
            },
            _ => None,
        }
    }

    /// Whether this is `null`.
    pub fn is_null(&self) -> (b: bool)
        ensures
            b == (self@ is Null),
    {
        match self {
            Json::Null => true,
            _ => false,
        }
    }
}

/// The text of the member `name`, where the document is an object in which
/// that member is a string.
pub open spec fn str_field(doc: JsonValue, name: Seq<char>) -> Option<Seq<char>> {
    match doc.field(name) {
        Some(v) => v.as_str(),
        None => None,
    }
}

/// The text of the member `name`, where it may be left out or `null`:
/// `Some(None)` in those two cases, `None` where the member is anything but a
/// string.
pub open spec fn opt_str_field(doc: JsonValue, name: Seq<char>) -> Option<Option<Seq<char>>> {
    match doc.field(name) {
        Some(JsonValue::Null) => Some(None),
        Some(v) => match v.as_str() {
            Some(s) => Some(Some(s)),
            None => None,
        },
        None => if doc is Object {
            Some(None)
        } else {
            None
        },
    }
}

/// The truth value of the member `name`.
pub open spec fn bool_field(doc: JsonValue, name: Seq<char>) -> Option<bool> {
    match doc.field(name) {
        Some(v) => v.as_bool(),
        None => None,
    }
}

/// The number of the member `name`, where it is an integer between `low` and
/// `high`.
pub open spec fn int_field(doc: JsonValue, name: Seq<char>, low: int, high: int) -> Option<int> {
    match doc.field(name) {
        Some(v) => v.as_int_within(low, high),
        None => None,
    }
}

/// The view of an optional optional string.
pub open spec fn string_opt_opt_view(text: Option<Option<String>>) -> Option<Option<Seq<char>>> {
    match text {
        Some(inner) => Some(string_opt_view(inner)),
        None => None,
    }
}

impl Json {
    /// Reads the string member `name`.
    pub fn read_string(&self, name: &str) -> (text: Option<String>)
        ensures
            string_opt_view(text) == str_field(self@, name@),
    {
        match self.get(name) {
            Some(v) => v.as_string(),
            None => None,
        }
    }

    /// Reads the string member `name`, which may be left out or `null`.
    pub fn read_optional_string(&self, name: &str) -> (text: Option<Option<String>>)
        ensures
            string_opt_opt_view(text) == opt_str_field(self@, name@),
    {
        match self.get(name) {
            Some(v) => {
                if v.is_null() {
                    Some(None)
                } else {
                    match v.as_string() {
                        Some(s) => Some(Some(s)),
                        None => None,
                    }
                }
            },
            None => match self {
                Json::Object(_) => Some(None),
                _ => None,
            },
        }
    }

    /// Reads the boolean member `name`.
    pub fn read_bool(&self, name: &str) -> (b: Option<bool>)
        ensures
            b == bool_field(self@, name@),
    {
        match self.get(name) {
            Some(v) => v.as_bool(),
            None => None,
        }
    }

    /// Reads the member `name` as a `u64`.
    pub fn read_u64(&self, name: &str) -> (n: Option<u64>)
        ensures
            n is Some <==> int_field(self@, name@, 0, u64::MAX as int) is Some,
            n matches Some(v) ==> int_field(self@, name@, 0, u64::MAX as int) == Some(v as int),
    {
        match self.get(name) {
            Some(v) => v.as_u64(),
            None => None,
        }
    }

    /// Reads the member `name` as a `u32`.
    pub fn read_u32(&self, name: &str) -> (n: Option<u32>)
        ensures
            n is Some <==> int_field(self@, name@, 0, u32::MAX as int) is Some,
            n matches Some(v) ==> int_field(self@, name@, 0, u32::MAX as int) == Some(v as int),
    {
        match self.get(name) {
            Some(v) => v.as_u32(),
            None => None,
        }
    }

    /// Reads the member `name` as an `i32`.
    pub fn read_i32(&self, name: &str) -> (n: Option<i32>)
        ensures
            n is Some <==> int_field(self@, name@, i32::MIN as int, i32::MAX as int) is Some,
            n matches Some(v) ==> int_field(self@, name@, i32::MIN as int, i32::MAX as int)
                == Some(v as int),
    {
        match self.get(name) {
            Some(v) => v.as_i32(),
            None => None,
        }
    }
}

/// A member list under construction: `Json::Object` of it has `model` for its
/// members.
pub struct ObjectBuilder {
    members: Vec<(String, Json)>,
}

impl View for ObjectBuilder {
    type V = Seq<(Seq<char>, JsonValue)>;

    closed spec fn view(&self) -> Seq<(Seq<char>, JsonValue)> {
        Seq::new(self.members.len() as nat, |i: int| (self.members[i].0@, self.members[i].1@))
    }
}

impl ObjectBuilder {
    /// An empty member list.
    pub fn new() -> (builder: ObjectBuilder)
        ensures
            builder@ == Seq::<(Seq<char>, JsonValue)>::empty(),
    {
        let builder = ObjectBuilder { members: Vec::new() };
        assert(builder@ =~= Seq::empty());
        builder
    }

    /// Appends the member `name` with the value `value`.
    pub fn member(&mut self, name: &str, value: Json)
        ensures
            final(self)@ == old(self)@.push((name@, value@)),
    {
        self.members.push((String::from_str(name), value));
        assert(self@ =~= old(self)@.push((name@, value@)));
    }

    /// The object with the members appended so far.
    pub fn finish(self) -> (doc: Json)
        ensures
            doc@ == JsonValue::Object(self@),
    {
        let doc = Json::Object(self.members);
        assert(doc@->Object_0 =~= self@);
        doc
    }
}

} // verus!
