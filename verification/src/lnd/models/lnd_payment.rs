//! Payments: the request and the updates that answer it.

use crate::error::ChannelError;
use crate::json::{
    bool_field, int_field, json_text, json_text_pretty, lemma_lookup_finds, str_field, Json,
    JsonValue, ObjectBuilder,
};
use crate::lnd::models::{
    decode_text, from_text, nested_field, read_nested, to_text, to_text_pretty, JsonRecord,
};
use crate::text::str_eq;
use vstd::prelude::*;

verus! {

/// A request to pay an invoice, as it is sent on the payment stream.
#[derive(Debug, Clone)]
pub struct LndPaymentRequest {
    payment_request: String,
    timeout_seconds: i32,
    /// A 64-bit number in decimal.
    fee_limit_sat: String,
    allow_self_payment: bool,
}

/// Model of `LndPaymentRequest`.
pub struct LndPaymentRequestView {
    pub payment_request: Seq<char>,
    pub timeout_seconds: i32,
    pub fee_limit_sat: Seq<char>,
    pub allow_self_payment: bool,
}

impl View for LndPaymentRequest {
    type V = LndPaymentRequestView;

    closed spec fn view(&self) -> LndPaymentRequestView {
        LndPaymentRequestView {
            payment_request: self.payment_request@,
            timeout_seconds: self.timeout_seconds,
            fee_limit_sat: self.fee_limit_sat@,
            allow_self_payment: self.allow_self_payment,
        }
    }
}

impl JsonRecord for LndPaymentRequest {
    open spec fn encode(value: LndPaymentRequestView) -> JsonValue {
        JsonValue::Object(
            seq![
                ("payment_request"@, JsonValue::Str(value.payment_request)),
                ("timeout_seconds"@, JsonValue::Integer(value.timeout_seconds as int)),
                ("fee_limit_sat"@, JsonValue::Str(value.fee_limit_sat)),
                ("allow_self_payment"@, JsonValue::Bool(value.allow_self_payment)),
            ],
        )
    }

    open spec fn decode(doc: JsonValue) -> Option<LndPaymentRequestView> {
        if str_field(doc, "payment_request"@) is Some
            && int_field(doc, "timeout_seconds"@, i32::MIN as int, i32::MAX as int) is Some
            && str_field(doc, "fee_limit_sat"@) is Some
            && bool_field(doc, "allow_self_payment"@) is Some {
            Some(
                LndPaymentRequestView {
                    payment_request: str_field(doc, "payment_request"@)->0,
                    timeout_seconds: int_field(
                        doc,
                        "timeout_seconds"@,
                        i32::MIN as int,
                        i32::MAX as int,
                    )->0 as i32,
                    fee_limit_sat: str_field(doc, "fee_limit_sat"@)->0,
                    allow_self_payment: bool_field(doc, "allow_self_payment"@)->0,
                },
            )
        } else {
            None
        }
    }

    fn to_json(&self) -> (doc: Json) {
        let mut members = ObjectBuilder::new();
        members.member("payment_request", Json::string(self.payment_request.as_str()));
        members.member("timeout_seconds", Json::integer(self.timeout_seconds as i64));
        members.member("fee_limit_sat", Json::string(self.fee_limit_sat.as_str()));
        members.member("allow_self_payment", Json::Bool(self.allow_self_payment));
        let doc = members.finish();
        assert(doc@->Object_0 =~= Self::encode(self@)->Object_0);
        doc
    }

    fn from_json(doc: &Json) -> (value: Option<Self>) {
        let payment_request = match doc.read_string("payment_request") {
            Some(v) => v,
            None => return None,
        };
        let timeout_seconds = match doc.read_i32("timeout_seconds") {
            Some(v) => v,
            None => return None,
        };
        let fee_limit_sat = match doc.read_string("fee_limit_sat") {
            Some(v) => v,
            None => return None,
        };
        let allow_self_payment = match doc.read_bool("allow_self_payment") {
            Some(v) => v,
            None => return None,
        };
        Some(
            LndPaymentRequest {
                payment_request,
                timeout_seconds,
                fee_limit_sat,
                allow_self_payment,
            },
        )
    }

    fn duplicate(&self) -> (copy: Self) {
        LndPaymentRequest {
            payment_request: self.payment_request.clone(),
            timeout_seconds: self.timeout_seconds,
            fee_limit_sat: self.fee_limit_sat.clone(),
            allow_self_payment: self.allow_self_payment,
        }
    }

    proof fn lemma_decode_encode(value: LndPaymentRequestView) {
        reveal_strlit("payment_request");
        reveal_strlit("timeout_seconds");
        reveal_strlit("fee_limit_sat");
        reveal_strlit("allow_self_payment");
        assert("payment_request"@.len() == 15);
        assert("timeout_seconds"@.len() == 15);
        assert("fee_limit_sat"@.len() == 13);
        assert("allow_self_payment"@.len() == 18);
        assert("payment_request"@[0] != "timeout_seconds"@[0]);
        let doc = Self::encode(value);
        let members = doc->Object_0;
        lemma_lookup_finds(members, "payment_request"@, 0, 0);
        lemma_lookup_finds(members, "timeout_seconds"@, 0, 1);
        lemma_lookup_finds(members, "fee_limit_sat"@, 0, 2);
        lemma_lookup_finds(members, "allow_self_payment"@, 0, 3);
    }
}

impl LndPaymentRequest {
    /// Reads the record from a JSON text.
    pub fn try_from(value: String) -> (record: Result<Self, ChannelError>)
        ensures
            match decode_text::<LndPaymentRequest>(value@) {
                Some(v) => record matches Ok(x) && x@ == v,
                None => record matches Err(e) && e == ChannelError::SerializationError,
            },
    {
        from_text(value.as_str())
    }

    /// Writes the record as one line of JSON.
    pub fn try_into(self) -> (text: Result<String, ChannelError>)
        ensures
            match json_text(LndPaymentRequest::encode(self@)) {
                Some(t) => text matches Ok(s) && s@ == t,
                None => text matches Err(e) && e == ChannelError::SerializationError,
            },
    {
        to_text(&self)
    }

    /// The record as one line of JSON.
    pub fn to_string(&self) -> (text: Result<String, ChannelError>)
        ensures
            match json_text(LndPaymentRequest::encode(self@)) {
                Some(t) => text matches Ok(s) && s@ == t,
                None => text matches Err(e) && e == ChannelError::SerializationError,
            },
    {
        to_text(self)
    }

    pub fn new(
        payment_request: String,
        timeout_seconds: i32,
        fee_limit_sat: String,
        allow_self_payment: bool,
    ) -> (request: Self)
        ensures
            request@ == (LndPaymentRequestView {
                payment_request: payment_request@,
                timeout_seconds,
                fee_limit_sat: fee_limit_sat@,
                allow_self_payment,
            }),
    {
        Self { payment_request, timeout_seconds, fee_limit_sat, allow_self_payment }
    }

    pub fn payment_request(&self) -> (request: String)
        ensures
            request@ == self@.payment_request,
    {
        self.payment_request.clone()
    }

    pub fn timeout_seconds(&self) -> (seconds: i32)
        ensures
            seconds == self@.timeout_seconds,
    {
        self.timeout_seconds
    }

    pub fn fee_limit_sat(&self) -> (limit: String)
        ensures
            limit@ == self@.fee_limit_sat,
    {
        self.fee_limit_sat.clone()
    }

    pub fn allow_self_payment(&self) -> (allowed: bool)
        ensures
            allowed == self@.allow_self_payment,
    {
        self.allow_self_payment
    }
}

/// How far a payment has come.
#[derive(Debug, Clone, Copy, PartialEq, Eq, Hash, Structural)]
pub enum InvoicePaymentState {
    InFlight,
    Succeeded,
    Failed,
    Initiaited,
}

impl View for InvoicePaymentState {
    type V = InvoicePaymentState;

    open spec fn view(&self) -> InvoicePaymentState {
        *self
    }
}

impl InvoicePaymentState {
    /// The name that stands for a variant on the wire.
    pub open spec fn name(self) -> Seq<char> {
        match self {
            InvoicePaymentState::InFlight => "IN_FLIGHT"@,
            InvoicePaymentState::Succeeded => "SUCCEEDED"@,
            InvoicePaymentState::Failed => "FAILED"@,
            InvoicePaymentState::Initiaited => "INITIATED"@,
        }
    }

    /// The variant that a name stands for.
    pub open spec fn named(text: Seq<char>) -> Option<InvoicePaymentState> {
        if text == "IN_FLIGHT"@ {
            Some(InvoicePaymentState::InFlight)
        } else if text == "SUCCEEDED"@ {
            Some(InvoicePaymentState::Succeeded)
        } else if text == "FAILED"@ {
            Some(InvoicePaymentState::Failed)
        } else if text == "INITIATED"@ {
            Some(InvoicePaymentState::Initiaited)
        } else {
            None
        }
    }

    /// The name that stands for the variant on the wire.
    pub fn as_str(&self) -> (text: &'static str)
        ensures
            text@ == self.name(),
    {
        match self {
            InvoicePaymentState::InFlight => "IN_FLIGHT",
            InvoicePaymentState::Succeeded => "SUCCEEDED",
            InvoicePaymentState::Failed => "FAILED",
            InvoicePaymentState::Initiaited => "INITIATED",
        }
    }

    /// The variant that `text` names.
    pub fn from_name(text: &str) -> (variant: Option<Self>)
        ensures
            variant == Self::named(text@),
    {
        if str_eq(text, "IN_FLIGHT") {
            Some(InvoicePaymentState::InFlight)
        } else if str_eq(text, "SUCCEEDED") {
            Some(InvoicePaymentState::Succeeded)
        } else if str_eq(text, "FAILED") {
            Some(InvoicePaymentState::Failed)
        } else if str_eq(text, "INITIATED") {
            Some(InvoicePaymentState::Initiaited)
        } else {
            None
        }
    }

    /// A name is read back as the variant it was written for.
    pub proof fn lemma_named_name(variant: InvoicePaymentState)
        ensures
            Self::named(variant.name()) == Some(variant),
    {
        reveal_strlit("IN_FLIGHT");
        reveal_strlit("SUCCEEDED");
        reveal_strlit("FAILED");
        reveal_strlit("INITIATED");
        assert("IN_FLIGHT"@.len() == 9);
        assert("SUCCEEDED"@.len() == 9);
        assert("FAILED"@.len() == 6);
        assert("INITIATED"@.len() == 9);
        assert("IN_FLIGHT"@[0] != "SUCCEEDED"@[0]);
        assert("IN_FLIGHT"@[2] != "INITIATED"@[2]);
        assert("SUCCEEDED"@[0] != "INITIATED"@[0]);
    }

    /// The variant as indented JSON: its name in quotes.
    pub fn to_string(&self) -> (text: Result<String, ChannelError>)
        ensures
            match json_text_pretty(InvoicePaymentState::encode(self@)) {
                Some(t) => text matches Ok(s) && s@ == t,
                None => text matches Err(e) && e == ChannelError::SerializationError,
            },
    {
        to_text_pretty(self)
    }
}

impl JsonRecord for InvoicePaymentState {
    open spec fn encode(value: InvoicePaymentState) -> JsonValue {
        JsonValue::Str(value.name())
    }

    open spec fn decode(doc: JsonValue) -> Option<InvoicePaymentState> {
        match doc {
            JsonValue::Str(text) => Self::named(text),
            _ => None,
        }
    }

    fn to_json(&self) -> (doc: Json) {
        Json::string(self.as_str())
    }

    fn from_json(doc: &Json) -> (value: Option<Self>) {
        match doc {
            Json::Str(text) => Self::from_name(text.as_str()),
            _ => None,
        }
    }

    fn duplicate(&self) -> (copy: Self) {
        *self
    }

    proof fn lemma_decode_encode(value: InvoicePaymentState) {
        Self::lemma_named_name(value);
    }
}

/// One update on a payment, as the payment stream sends it.
#[derive(Debug, Clone)]
pub struct LndPaymentResponse {
    payment_preimage: String,
    status: InvoicePaymentState,
}

/// Model of `LndPaymentResponse`.
pub struct LndPaymentResponseView {
    pub payment_preimage: Seq<char>,
    pub status: <InvoicePaymentState as View>::V,
}

impl View for LndPaymentResponse {
    type V = LndPaymentResponseView;

    closed spec fn view(&self) -> LndPaymentResponseView {
        LndPaymentResponseView {
            payment_preimage: self.payment_preimage@,
            status: self.status@,
        }
    }
}

impl JsonRecord for LndPaymentResponse {
    open spec fn encode(value: LndPaymentResponseView) -> JsonValue {
        JsonValue::Object(
            seq![
                ("payment_preimage"@, JsonValue::Str(value.payment_preimage)),
                ("status"@, InvoicePaymentState::encode(value.status)),
            ],
        )
    }

    open spec fn decode(doc: JsonValue) -> Option<LndPaymentResponseView> {
        if str_field(doc, "payment_preimage"@) is Some
            && nested_field::<InvoicePaymentState>(doc, "status"@) is Some {
            Some(
                LndPaymentResponseView {
                    payment_preimage: str_field(doc, "payment_preimage"@)->0,
                    status: nested_field::<InvoicePaymentState>(doc, "status"@)->0,
                },
            )
        } else {
            None
        }
    }

    fn to_json(&self) -> (doc: Json) {
        let mut members = ObjectBuilder::new();
        members.member("payment_preimage", Json::string(self.payment_preimage.as_str()));
        members.member("status", self.status.to_json());
        let doc = members.finish();
        assert(doc@->Object_0 =~= Self::encode(self@)->Object_0);
        doc
    }

    fn from_json(doc: &Json) -> (value: Option<Self>) {
        let payment_preimage = match doc.read_string("payment_preimage") {
            Some(v) => v,
            None => return None,
        };
        let status = match read_nested::<InvoicePaymentState>(doc, "status") {
            Some(v) => v,
            None => return None,
        };
        Some(LndPaymentResponse { payment_preimage, status })
    }

    fn duplicate(&self) -> (copy: Self) {
        LndPaymentResponse {
            payment_preimage: self.payment_preimage.clone(),
            status: self.status.duplicate(),
        }
    }

    proof fn lemma_decode_encode(value: LndPaymentResponseView) {
        reveal_strlit("payment_preimage");
        reveal_strlit("status");
        assert("payment_preimage"@.len() == 16);
        assert("status"@.len() == 6);
        let doc = Self::encode(value);
        let members = doc->Object_0;
        lemma_lookup_finds(members, "payment_preimage"@, 0, 0);
        lemma_lookup_finds(members, "status"@, 0, 1);
        InvoicePaymentState::lemma_decode_encode(value.status);
    }
}

impl LndPaymentResponse {
    /// Reads the record from a JSON text.
    pub fn try_from(value: String) -> (record: Result<Self, ChannelError>)
        ensures
            match decode_text::<LndPaymentResponse>(value@) {
                Some(v) => record matches Ok(x) && x@ == v,
                None => record matches Err(e) && e == ChannelError::SerializationError,
            },
    {
        from_text(value.as_str())
    }

    /// Writes the record as one line of JSON.
    pub fn try_into(self) -> (text: Result<String, ChannelError>)
        ensures
            match json_text(LndPaymentResponse::encode(self@)) {
                Some(t) => text matches Ok(s) && s@ == t,
                None => text matches Err(e) && e == ChannelError::SerializationError,
            },
    {
        to_text(&self)
    }

    /// The record as indented JSON.
    pub fn to_string(&self) -> (text: Result<String, ChannelError>)
        ensures
            match json_text_pretty(LndPaymentResponse::encode(self@)) {
                Some(t) => text matches Ok(s) && s@ == t,
                None => text matches Err(e) && e == ChannelError::SerializationError,
            },
    {
        to_text_pretty(self)
    }

    pub fn preimage(&self) -> (preimage: String)
        ensures
            preimage@ == self@.payment_preimage,
    {
        self.payment_preimage.clone()
    }

    pub fn status(&self) -> (status: InvoicePaymentState)
        ensures
            status == self@.status,
    {
        self.status
    }
}

} // verus!
