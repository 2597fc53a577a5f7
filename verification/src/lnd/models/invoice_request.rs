//! Requests for invoices.

use crate::error::ChannelError;
use crate::json::{
    json_text, lemma_lookup_finds, opt_str_field, str_field, string_opt_view, Json, JsonValue,
    ObjectBuilder,
};
use crate::lnd::models::{duplicate_optional, optional_string, optional_text, to_text, JsonRecord};
use crate::text::{decimal, decimal_text};
use vstd::pervasive::unreached;
use vstd::prelude::*;

verus! {

/// A request for an invoice, carrying its body as JSON text.
#[derive(Debug, Clone)]
pub struct LndInvoiceRequest {
    form: String,
}

/// Model of `LndInvoiceRequest`.
pub struct LndInvoiceRequestView {
    pub form: Seq<char>,
}

impl View for LndInvoiceRequest {
    type V = LndInvoiceRequestView;

    closed spec fn view(&self) -> LndInvoiceRequestView {
        LndInvoiceRequestView {
            form: self.form@,
        }
    }
}

impl JsonRecord for LndInvoiceRequest {
    open spec fn encode(value: LndInvoiceRequestView) -> JsonValue {
        JsonValue::Object(
            seq![
                ("form"@, JsonValue::Str(value.form)),
            ],
        )
    }

    open spec fn decode(doc: JsonValue) -> Option<LndInvoiceRequestView> {
        if str_field(doc, "form"@) is Some {
            Some(
                LndInvoiceRequestView {
                    form: str_field(doc, "form"@)->0,
                },
            )
        } else {
            None
        }
    }

    fn to_json(&self) -> (doc: Json) {
        let mut members = ObjectBuilder::new();
        members.member("form", Json::string(self.form.as_str()));
        let doc = members.finish();
        assert(doc@->Object_0 =~= Self::encode(self@)->Object_0);
        doc
    }

    fn from_json(doc: &Json) -> (value: Option<Self>) {
        let form = match doc.read_string("form") {
            Some(v) => v,
            None => return None,
        };
        Some(LndInvoiceRequest { form })
    }

    fn duplicate(&self) -> (copy: Self) {
        LndInvoiceRequest {
            form: self.form.clone(),
        }
    }

    proof fn lemma_decode_encode(value: LndInvoiceRequestView) {
        reveal_strlit("form");
        let doc = Self::encode(value);
        let members = doc->Object_0;
        lemma_lookup_finds(members, "form"@, 0, 0);
    }
}

impl LndInvoiceRequest {
    /// The record as one line of JSON.
    pub fn to_string(&self) -> (text: Result<String, ChannelError>)
        ensures
            match json_text(LndInvoiceRequest::encode(self@)) {
                Some(t) => text matches Ok(s) && s@ == t,
                None => text matches Err(e) && e == ChannelError::SerializationError,
            },
    {
        to_text(self)
    }

    /// The JSON text of a body, where the writer accepts it.
    pub open spec fn form_of(body: LndInvoiceRequestBodyView) -> Option<Seq<char>> {
        json_text(LndInvoiceRequestBody::encode(body))
    }

    /// The body of the request for an invoice over `amount` with no memo.
    pub open spec fn body_for(amount: u64) -> LndInvoiceRequestBodyView {
        LndInvoiceRequestBodyView { value: decimal_text(amount as nat), memo: None }
    }

    /// A request whose form is the JSON text of `body`.
    pub fn from_body(body: LndInvoiceRequestBody) -> (request: Self)
        requires
            Self::form_of(body@) is Some,
        ensures
            Some(request@.form) == Self::form_of(body@),
    {
        match body.to_string() {
            Ok(form) => LndInvoiceRequest { form },
            Err(_) => unreached(),
        }
    }

    /// A request whose form is the JSON text of `body`; `None` where the
    /// writer refuses the body.
    pub fn checked_from_body(body: LndInvoiceRequestBody) -> (request: Option<Self>)
        ensures
            match Self::form_of(body@) {
                Some(form) => request matches Some(r) && r@.form == form,
                None => request is None,
            },
    {
        match body.to_string() {
            Ok(_) => Some(Self::from_body(body)),
            Err(_) => None,
        }
    }

    /// A request for an invoice over `amount`, with no memo.
    pub fn new(amount: u64) -> (request: Self)
        requires
            Self::form_of(Self::body_for(amount)) is Some,
        ensures
            Some(request@.form) == Self::form_of(Self::body_for(amount)),
    {
        let body = LndInvoiceRequestBody { value: decimal(amount), memo: None };
        Self::from_body(body)
    }

    /// A request for an invoice over `amount`, with no memo; `None` where
    /// the writer refuses the body.
    pub fn checked_new(amount: u64) -> (request: Option<Self>)
        ensures
            match Self::form_of(Self::body_for(amount)) {
                Some(form) => request matches Some(r) && r@.form == form,
                None => request is None,
            },
    {
        let body = LndInvoiceRequestBody { value: decimal(amount), memo: None };
        match body.to_string() {
            Ok(_) => Some(Self::new(amount)),
            Err(_) => None,
        }
    }

    /// The JSON text of the body.
    pub fn form(&self) -> (form: String)
        ensures
            form@ == self@.form,
    {
        self.form.clone()
    }
}

/// The body of a request for an invoice: the amount in satoshis, in decimal,
/// and a memo.
#[derive(Debug, Clone)]
pub struct LndInvoiceRequestBody {
    pub value: String,
    pub memo: Option<String>,
}

/// Model of `LndInvoiceRequestBody`.
pub struct LndInvoiceRequestBodyView {
    pub value: Seq<char>,
    pub memo: Option<Seq<char>>,
}

impl View for LndInvoiceRequestBody {
    type V = LndInvoiceRequestBodyView;

    open spec fn view(&self) -> LndInvoiceRequestBodyView {
        LndInvoiceRequestBodyView {
            value: self.value@,
            memo: string_opt_view(self.memo),
        }
    }
}

impl JsonRecord for LndInvoiceRequestBody {
    open spec fn encode(value: LndInvoiceRequestBodyView) -> JsonValue {
        JsonValue::Object(
            seq![
                ("value"@, JsonValue::Str(value.value)),
                ("memo"@, optional_text(value.memo)),
            ],
        )
    }

    open spec fn decode(doc: JsonValue) -> Option<LndInvoiceRequestBodyView> {
        if str_field(doc, "value"@) is Some
            && opt_str_field(doc, "memo"@) is Some {
            Some(
                LndInvoiceRequestBodyView {
                    value: str_field(doc, "value"@)->0,
                    memo: opt_str_field(doc, "memo"@)->0,
                },
            )
        } else {
            None
        }
    }

    fn to_json(&self) -> (doc: Json) {
        let mut members = ObjectBuilder::new();
        members.member("value", Json::string(self.value.as_str()));
        members.member("memo", optional_string(&self.memo));
        let doc = members.finish();
        assert(doc@->Object_0 =~= Self::encode(self@)->Object_0);
        doc
    }

    fn from_json(doc: &Json) -> (value: Option<Self>) {
        let value = match doc.read_string("value") {
            Some(v) => v,
            None => return None,
        };
        let memo = match doc.read_optional_string("memo") {
            Some(v) => v,
            None => return None,
        };
        Some(LndInvoiceRequestBody { value, memo })
    }

    fn duplicate(&self) -> (copy: Self) {
        LndInvoiceRequestBody {
            value: self.value.clone(),
            memo: duplicate_optional(&self.memo),
        }
    }

    proof fn lemma_decode_encode(value: LndInvoiceRequestBodyView) {
        reveal_strlit("value");
        reveal_strlit("memo");
        assert("value"@.len() == 5);
        assert("memo"@.len() == 4);
        let doc = Self::encode(value);
        let members = doc->Object_0;
        lemma_lookup_finds(members, "value"@, 0, 0);
        lemma_lookup_finds(members, "memo"@, 0, 1);
    }
}

impl LndInvoiceRequestBody {
    /// The record as one line of JSON.
    pub fn to_string(&self) -> (text: Result<String, ChannelError>)
        ensures
            match json_text(LndInvoiceRequestBody::encode(self@)) {
                Some(t) => text matches Ok(s) && s@ == t,
                None => text matches Err(e) && e == ChannelError::SerializationError,
            },
    {
        to_text(self)
    }

    pub fn new(value: String, memo: Option<String>) -> (body: Self)
        ensures
            body@ == (LndInvoiceRequestBodyView { value: value@, memo: string_opt_view(memo) }),
    {
        Self { value, memo }
    }
}

impl Default for LndInvoiceRequestBody {
    fn default() -> (body: Self)
        ensures
            body@ == (LndInvoiceRequestBodyView { value: Seq::empty(), memo: None }),
    {
        Self { value: String::new(), memo: None }
    }
}

} // verus!
