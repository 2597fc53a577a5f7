//! The records that the node exchanges as JSON, and the two envelopes that
//! wrap every streamed answer.

use crate::error::ChannelError;
use crate::json::{
    int_field, json_parse, json_text, json_text_pretty, lemma_lookup_finds, str_field,
    string_opt_view, Json, JsonValue, ObjectBuilder,
};
use vstd::prelude::*;

pub mod hodl_invoice;
pub mod info;
pub mod invoice;
pub mod invoice_request;
pub mod lnd_payment;
pub mod onchain;

verus! {

/// The view of an optional value.
pub open spec fn view_opt<T: View>(value: Option<T>) -> Option<T::V> {
    match value {
        Some(v) => Some(v@),
        None => None,
    }
}

/// A record with a JSON form.
///
/// `encode` and `decode` are the schema; `to_json` and `from_json` compute
/// them, and `lemma_decode_encode` is the law that binds them: what was
/// written is read back unchanged.
pub trait JsonRecord: View + Sized {
    /// The document that stands for a value.
    spec fn encode(value: Self::V) -> JsonValue;

    /// The value that a document stands for, if it stands for one.
    spec fn decode(doc: JsonValue) -> Option<Self::V>;

    fn to_json(&self) -> (doc: Json)
        ensures
            doc@ == Self::encode(self@),
    ;

    fn from_json(doc: &Json) -> (value: Option<Self>)
        ensures
            view_opt(value) == Self::decode(doc@),
    ;

    /// A second value with the same view.
    fn duplicate(&self) -> (copy: Self)
        ensures
            copy@ == self@,
    ;

    proof fn lemma_decode_encode(value: Self::V)
        ensures
            Self::decode(Self::encode(value)) == Some(value),
    ;
}

/// The views of a sequence of values.
pub open spec fn views<T: View>(values: Seq<T>) -> Seq<T::V> {
    Seq::new(values.len(), |i: int| values[i]@)
}

/// The record under the member `name`.
pub open spec fn nested_field<T: JsonRecord>(doc: JsonValue, name: Seq<char>) -> Option<T::V> {
    match doc.field(name) {
        Some(inner) => T::decode(inner),
        None => None,
    }
}

/// The documents that stand for a sequence of values, one for one.
pub open spec fn encode_all<T: JsonRecord>(values: Seq<T::V>) -> Seq<JsonValue> {
    Seq::new(values.len(), |i: int| T::encode(values[i]))
}

/// The values that a sequence of documents stands for, where every one of
/// them stands for a value.
pub open spec fn decode_all<T: JsonRecord>(docs: Seq<JsonValue>) -> Option<Seq<T::V>> {
    if forall|i: int| 0 <= i < docs.len() ==> (#[trigger] T::decode(docs[i])) is Some {
        Some(Seq::new(docs.len(), |i: int| T::decode(docs[i])->0))
    } else {
        None
    }
}

/// The records in the array under the member `name`.
pub open spec fn list_field<T: JsonRecord>(doc: JsonValue, name: Seq<char>) -> Option<Seq<T::V>> {
    match doc.field(name) {
        Some(JsonValue::Array(items)) => decode_all::<T>(items),
        _ => None,
    }
}

/// What was written for a sequence of values is read back unchanged.
pub proof fn lemma_decode_all_encode_all<T: JsonRecord>(values: Seq<T::V>)
    ensures
        decode_all::<T>(encode_all::<T>(values)) == Some(values),
{
    let docs = encode_all::<T>(values);
    assert forall|i: int| 0 <= i < docs.len() implies (#[trigger] T::decode(docs[i])) == Some(
        values[i],
    ) by {
        T::lemma_decode_encode(values[i]);
    }
    assert(decode_all::<T>(docs)->0 =~= values);
}

/// Reads the record under the member `name`.
pub fn read_nested<T: JsonRecord>(doc: &Json, name: &str) -> (value: Option<T>)
    ensures
        view_opt(value) == nested_field::<T>(doc@, name@),
{
    match doc.get(name) {
        Some(inner) => T::from_json(inner),
        None => None,
    }
}

/// Reads every item of an array as a record.
pub fn read_all<T: JsonRecord>(items: &Vec<Json>) -> (values: Option<Vec<T>>)
    ensures
        match decode_all::<T>(Seq::new(items.len() as nat, |i: int| items[i]@)) {
            Some(vs) => values matches Some(v) && views(v@) == vs,
            None => values is None,
        },
{
    let ghost docs = Seq::new(items.len() as nat, |i: int| items[i]@);
    let mut out: Vec<T> = Vec::new();
    let mut i: usize = 0;
    while i < items.len()
        invariant
            i <= items.len(),
            docs == Seq::new(items.len() as nat, |i: int| items[i]@),
            out.len() == i,
            forall|k: int| 0 <= k < i ==> T::decode(#[trigger] docs[k]) == Some(out[k]@),
        decreases items.len() - i,
    {
        match T::from_json(&items[i]) {
            Some(value) => {
                out.push(value);
            },
            None => {
                assert(T::decode(docs[i as int]) is None);
                return None;
            },
        }
        i += 1;
    }
    assert(views(out@) =~= decode_all::<T>(docs)->0);
    Some(out)
}

/// Reads the array of records under the member `name`.
pub fn read_list<T: JsonRecord>(doc: &Json, name: &str) -> (values: Option<Vec<T>>)
    ensures
        match list_field::<T>(doc@, name@) {
            Some(vs) => values matches Some(v) && views(v@) == vs,
            None => values is None,
        },
{
    match doc.get(name) {
        Some(inner) => match inner.as_array() {
            Some(items) => read_all::<T>(items),
            None => None,
        },
        None => None,
    }
}

/// The array that stands for a list of records.
pub fn list_to_json<T: JsonRecord>(values: &Vec<T>) -> (doc: Json)
    ensures
        doc@ == JsonValue::Array(encode_all::<T>(views(values@))),
{
    let mut items: Vec<Json> = Vec::new();
    let mut i: usize = 0;
    while i < values.len()
        invariant
            i <= values.len(),
            items.len() == i,
            forall|k: int| 0 <= k < i ==> (#[trigger] items[k])@ == T::encode(values[k]@),
        decreases values.len() - i,
    {
        items.push(values[i].to_json());
        i += 1;
    }
    let doc = Json::Array(items);
    assert(doc@->Array_0 =~= encode_all::<T>(views(values@)));
    doc
}

/// A second list with the same views.
pub fn duplicate_list<T: JsonRecord>(values: &Vec<T>) -> (copy: Vec<T>)
    ensures
        views(copy@) == views(values@),
{
    let mut copy: Vec<T> = Vec::new();
    let mut i: usize = 0;
    while i < values.len()
        invariant
            i <= values.len(),
            copy.len() == i,
            forall|k: int| 0 <= k < i ==> (#[trigger] copy[k])@ == values[k]@,
        decreases values.len() - i,
    {
        copy.push(values[i].duplicate());
        i += 1;
    }
    assert(views(copy@) =~= views(values@));
    copy
}

/// The document for a text that may be absent: `null` where it is.
pub open spec fn optional_text(text: Option<Seq<char>>) -> JsonValue {
    match text {
        Some(s) => JsonValue::Str(s),
        None => JsonValue::Null,
    }
}

/// The document for a text that may be absent.
pub fn optional_string(text: &Option<String>) -> (doc: Json)
    ensures
        doc@ == optional_text(string_opt_view(*text)),
{
    match text {
        Some(s) => Json::string(s.as_str()),
        None => Json::Null,
    }
}

/// A second optional text with the same view.
pub fn duplicate_optional(text: &Option<String>) -> (copy: Option<String>)
    ensures
        string_opt_view(copy) == string_opt_view(*text),
{
    match text {
        Some(s) => Some(s.clone()),
        None => None,
    }
}

/// The value that a JSON text stands for: the text has to be a JSON document,
/// and the document has to fit the schema.
pub open spec fn decode_text<T: JsonRecord>(text: Seq<char>) -> Option<T::V> {
    match json_parse(text) {
        Some(doc) => T::decode(doc),
        None => None,
    }
}

/// Reads a record from a JSON text. Fails with `SerializationError` exactly
/// where `decode_text` has no value.
pub fn from_text<T: JsonRecord>(text: &str) -> (value: Result<T, ChannelError>)
    ensures
        match decode_text::<T>(text@) {
            Some(v) => value matches Ok(x) && x@ == v,
            None => value matches Err(e) && e == ChannelError::SerializationError,
        },
{
    match Json::parse(text) {
        Some(doc) => match T::from_json(&doc) {
            Some(x) => Ok(x),
            None => Err(ChannelError::SerializationError),
        },
        None => Err(ChannelError::SerializationError),
    }
}

/// Writes a record as one line of JSON. Fails with `SerializationError`
/// exactly where the writer refuses the document.
pub fn to_text<T: JsonRecord>(value: &T) -> (text: Result<String, ChannelError>)
    ensures
        match json_text(T::encode(value@)) {
            Some(t) => text matches Ok(s) && s@ == t,
            None => text matches Err(e) && e == ChannelError::SerializationError,
        },
{
    match value.to_json().to_text() {
        Some(s) => Ok(s),
        None => Err(ChannelError::SerializationError),
    }
}

/// Writes a record as indented JSON. Fails with `SerializationError` exactly
/// where the writer refuses the document.
pub fn to_text_pretty<T: JsonRecord>(value: &T) -> (text: Result<String, ChannelError>)
    ensures
        match json_text_pretty(T::encode(value@)) {
            Some(t) => text matches Ok(s) && s@ == t,
            None => text matches Err(e) && e == ChannelError::SerializationError,
        },
{
    match value.to_json().to_text_pretty() {
        Some(s) => Ok(s),
        None => Err(ChannelError::SerializationError),
    }
}

/// The envelope of a successful answer: the payload under `result`.
#[derive(Debug, Clone)]
pub struct LndResponse<T> {
    pub result: T,
}

/// Model of `LndResponse`.
pub struct LndResponseView<V> {
    pub result: V,
}

impl<T: View> View for LndResponse<T> {
    type V = LndResponseView<T::V>;

    open spec fn view(&self) -> LndResponseView<T::V> {
        LndResponseView { result: self.result@ }
    }
}

impl<T: JsonRecord> LndResponse<T> {
    /// The payload.
    pub fn inner(&self) -> (payload: T)
        ensures
            payload@ == self@.result,
    {
        self.result.duplicate()
    }

    /// Reads the envelope from a JSON text.
    pub fn try_from(value: String) -> (envelope: Result<Self, ChannelError>)
        ensures
            match decode_text::<LndResponse<T>>(value@) {
                Some(v) => envelope matches Ok(x) && x@ == v,
                None => envelope matches Err(e) && e == ChannelError::SerializationError,
            },
    {
        from_text(value.as_str())
    }

    /// Writes the envelope as one line of JSON.
    pub fn try_into(self) -> (text: Result<String, ChannelError>)
        ensures
            match json_text(LndResponse::<T>::encode(self@)) {
                Some(t) => text matches Ok(s) && s@ == t,
                None => text matches Err(e) && e == ChannelError::SerializationError,
            },
    {
        to_text(&self)
    }

    /// The envelope as indented JSON.
    pub fn to_string(&self) -> (text: Result<String, ChannelError>)
        ensures
            match json_text_pretty(LndResponse::<T>::encode(self@)) {
                Some(t) => text matches Ok(s) && s@ == t,
                None => text matches Err(e) && e == ChannelError::SerializationError,
            },
    {
        to_text_pretty(self)
    }
}

impl<T: JsonRecord> JsonRecord for LndResponse<T> {
    open spec fn encode(value: LndResponseView<T::V>) -> JsonValue {
        JsonValue::Object(seq![("result"@, T::encode(value.result))])
    }

    open spec fn decode(doc: JsonValue) -> Option<LndResponseView<T::V>> {
        match doc.field("result"@) {
            Some(inner) => match T::decode(inner) {
                Some(result) => Some(LndResponseView { result }),
                None => None,
            },
            None => None,
        }
    }

    fn to_json(&self) -> (doc: Json) {
        let mut members = ObjectBuilder::new();
        members.member("result", self.result.to_json());
        let doc = members.finish();
        assert(doc@->Object_0 =~= seq![("result"@, T::encode(self@.result))]);
        doc
    }

    fn from_json(doc: &Json) -> (value: Option<Self>) {
        match doc.get("result") {
            Some(inner) => match T::from_json(inner) {
                Some(result) => Some(LndResponse { result }),
                None => None,
            },
            None => None,
        }
    }

    fn duplicate(&self) -> (copy: Self) {
        LndResponse { result: self.result.duplicate() }
    }

    proof fn lemma_decode_encode(value: LndResponseView<T::V>) {
        T::lemma_decode_encode(value.result);
        lemma_lookup_finds(Self::encode(value)->Object_0, "result"@, 0, 0);
    }
}

/// What an error envelope carries: a numeric code and a message.
#[derive(Debug, Clone, PartialEq, Eq, Hash)]
pub struct LndErrorDetail {
    code: i32,
    message: String,
}

/// Model of `LndErrorDetail`.
pub struct LndErrorDetailView {
    pub code: i32,
    pub message: Seq<char>,
}

impl View for LndErrorDetail {
    type V = LndErrorDetailView;

    closed spec fn view(&self) -> LndErrorDetailView {
        LndErrorDetailView { code: self.code, message: self.message@ }
    }
}

impl LndErrorDetail {
    pub fn new(code: i32, message: String) -> (detail: Self)
        ensures
            detail@ == (LndErrorDetailView { code, message: message@ }),
    {
        LndErrorDetail { code, message }
    }

    pub fn code(&self) -> (code: i32)
        ensures
            code == self@.code,
    {
        self.code
    }

    pub fn message(&self) -> (message: String)
        ensures
            message@ == self@.message,
    {
        self.message.clone()
    }
}

impl JsonRecord for LndErrorDetail {
    open spec fn encode(value: LndErrorDetailView) -> JsonValue {
        JsonValue::Object(
            seq![
                ("code"@, JsonValue::Integer(value.code as int)),
                ("message"@, JsonValue::Str(value.message)),
            ],
        )
    }

    open spec fn decode(doc: JsonValue) -> Option<LndErrorDetailView> {
        match (
            int_field(doc, "code"@, i32::MIN as int, i32::MAX as int),
            str_field(doc, "message"@),
        ) {
            (Some(code), Some(message)) => Some(LndErrorDetailView { code: code as i32, message }),
            _ => None,
        }
    }

    fn to_json(&self) -> (doc: Json) {
        let mut members = ObjectBuilder::new();
        members.member("code", Json::integer(self.code as i64));
        members.member("message", Json::string(self.message.as_str()));
        let doc = members.finish();
        assert(doc@->Object_0 =~= Self::encode(self@)->Object_0);
        doc
    }

    fn from_json(doc: &Json) -> (value: Option<Self>) {
        let code = doc.read_i32("code");
        let message = doc.read_string("message");
        match (code, message) {
            (Some(code), Some(message)) => Some(LndErrorDetail { code, message }),
            _ => None,
        }
    }

    fn duplicate(&self) -> (copy: Self) {
        LndErrorDetail { code: self.code, message: self.message.clone() }
    }

    proof fn lemma_decode_encode(value: LndErrorDetailView) {
        reveal_strlit("code");
        reveal_strlit("message");
        assert("code"@.len() == 4);
        assert("message"@.len() == 7);
        let doc = Self::encode(value);
        let members = doc->Object_0;
        lemma_lookup_finds(members, "code"@, 0, 0);
        lemma_lookup_finds(members, "message"@, 0, 1);
    }
}

/// The envelope of a failed answer: the detail under `error`.
#[derive(Debug, Clone, PartialEq, Eq, Hash)]
pub struct LndError {
    error: LndErrorDetail,
}

/// Model of `LndError`.
pub struct LndErrorView {
    pub error: LndErrorDetailView,
}

impl View for LndError {
    type V = LndErrorView;

    closed spec fn view(&self) -> LndErrorView {
        LndErrorView { error: self.error@ }
    }
}

impl LndError {
    pub fn new(code: i32, message: String) -> (error: Self)
        ensures
            error@ == (LndErrorView { error: LndErrorDetailView { code, message: message@ } }),
    {
        LndError { error: LndErrorDetail::new(code, message) }
    }

    pub fn code(&self) -> (code: i32)
        ensures
            code == self@.error.code,
    {
        self.error.code()
    }

    pub fn message(&self) -> (message: String)
        ensures
            message@ == self@.error.message,
    {
        self.error.message()
    }

    /// Reads an error envelope from a JSON text.
    pub fn try_from(value: String) -> (error: Result<Self, ChannelError>)
        ensures
            match decode_text::<LndError>(value@) {
                Some(v) => error matches Ok(x) && x@ == v,
                None => error matches Err(e) && e == ChannelError::SerializationError,
            },
    {
        from_text(value.as_str())
    }

    /// The envelope as indented JSON.
    pub fn to_string(&self) -> (text: Result<String, ChannelError>)
        ensures
            match json_text_pretty(LndError::encode(self@)) {
                Some(t) => text matches Ok(s) && s@ == t,
                None => text matches Err(e) && e == ChannelError::SerializationError,
            },
    {
        to_text_pretty(self)
    }
}

impl JsonRecord for LndError {
    open spec fn encode(value: LndErrorView) -> JsonValue {
        JsonValue::Object(seq![("error"@, LndErrorDetail::encode(value.error))])
    }

    open spec fn decode(doc: JsonValue) -> Option<LndErrorView> {
        match doc.field("error"@) {
            Some(inner) => match LndErrorDetail::decode(inner) {
                Some(error) => Some(LndErrorView { error }),
                None => None,
            },
            None => None,
        }
    }

    fn to_json(&self) -> (doc: Json) {
        let mut members = ObjectBuilder::new();
        members.member("error", self.error.to_json());
        let doc = members.finish();
        assert(doc@->Object_0 =~= Self::encode(self@)->Object_0);
        doc
    }

    fn from_json(doc: &Json) -> (value: Option<Self>) {
        match doc.get("error") {
            Some(inner) => match LndErrorDetail::from_json(inner) {
                Some(error) => Some(LndError { error }),
                None => None,
            },
            None => None,
        }
    }

    fn duplicate(&self) -> (copy: Self) {
        LndError { error: self.error.duplicate() }
    }

    proof fn lemma_decode_encode(value: LndErrorView) {
        LndErrorDetail::lemma_decode_encode(value.error);
        lemma_lookup_finds(Self::encode(value)->Object_0, "error"@, 0, 0);
    }
}

} // verus!
