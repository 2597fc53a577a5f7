//! Invoices, pages of invoices, and on-chain address requests.

use crate::error::ChannelError;
use crate::json::{
    bool_field, json_text, json_text_pretty, lemma_lookup_finds, lemma_lookup_misses, opt_str_field,
    str_field, string_opt_view, Json, JsonValue, ObjectBuilder,
};
use crate::lnd::models::{
    decode_text, duplicate_list, duplicate_optional, encode_all, from_text,
    lemma_decode_all_encode_all, list_field, list_to_json, nested_field, optional_string,
    optional_text, read_list, read_nested, to_text, to_text_pretty, views, JsonRecord,
};
use crate::codec::{
    base64_standard_decoded, base64_url_safe, bytes_opt_view, decode_standard, encode_url_safe,
};
use crate::lnd::models::onchain::OnchainAddressType;
use crate::text::{hex_encode, hex_text, str_eq};
use vstd::pervasive::unreached;
use vstd::prelude::*;

verus! {

/// The state of an invoice.
#[derive(Debug, Clone, Copy, PartialEq, Eq, Hash, Structural)]
pub enum LndInvoiceState {
    Open,
    Settled,
    Canceled,
    Accepted,
}

impl View for LndInvoiceState {
    type V = LndInvoiceState;

    open spec fn view(&self) -> LndInvoiceState {
        *self
    }
}

impl LndInvoiceState {
    /// The name that stands for a variant on the wire.
    pub open spec fn name(self) -> Seq<char> {
        match self {
            LndInvoiceState::Open => "OPEN"@,
            LndInvoiceState::Settled => "SETTLED"@,
            LndInvoiceState::Canceled => "CANCELED"@,
            LndInvoiceState::Accepted => "ACCEPTED"@,
        }
    }

    /// The variant that a name stands for.
    pub open spec fn named(text: Seq<char>) -> Option<LndInvoiceState> {
        if text == "OPEN"@ {
            Some(LndInvoiceState::Open)
        } else if text == "SETTLED"@ {
            Some(LndInvoiceState::Settled)
        } else if text == "CANCELED"@ {
            Some(LndInvoiceState::Canceled)
        } else if text == "ACCEPTED"@ {
            Some(LndInvoiceState::Accepted)
        } else {
            None
        }
    }

    /// The name that stands for the variant on the wire.
    pub fn as_str(&self) -> (text: &'static str)
        ensures
            text@ == self.name(),
    {
        match self {
            LndInvoiceState::Open => "OPEN",
            LndInvoiceState::Settled => "SETTLED",
            LndInvoiceState::Canceled => "CANCELED",
            LndInvoiceState::Accepted => "ACCEPTED",
        }
    }

    /// The variant that `text` names.
    pub fn from_name(text: &str) -> (variant: Option<Self>)
        ensures
            variant == Self::named(text@),
    {
        if str_eq(text, "OPEN") {
            Some(LndInvoiceState::Open)
        } else if str_eq(text, "SETTLED") {
            Some(LndInvoiceState::Settled)
        } else if str_eq(text, "CANCELED") {
            Some(LndInvoiceState::Canceled)
        } else if str_eq(text, "ACCEPTED") {
            Some(LndInvoiceState::Accepted)
        } else {
            None
        }
    }

    /// A name is read back as the variant it was written for.
    pub proof fn lemma_named_name(variant: LndInvoiceState)
        ensures
            Self::named(variant.name()) == Some(variant),
    {
        reveal_strlit("OPEN");
        reveal_strlit("SETTLED");
        reveal_strlit("CANCELED");
        reveal_strlit("ACCEPTED");
        assert("OPEN"@.len() == 4);
        assert("SETTLED"@.len() == 7);
        assert("CANCELED"@.len() == 8);
        assert("ACCEPTED"@.len() == 8);
        assert("CANCELED"@[0] != "ACCEPTED"@[0]);
    }
}

impl JsonRecord for LndInvoiceState {
    open spec fn encode(value: LndInvoiceState) -> JsonValue {
        JsonValue::Str(value.name())
    }

    open spec fn decode(doc: JsonValue) -> Option<LndInvoiceState> {
        match doc {
            JsonValue::Str(text) => Self::named(text),
            _ => None,
        }
    }

    fn to_json(&self) -> (doc: Json) {
        Json::string(self.as_str())
    }

    fn from_json(doc: &Json) -> (value: Option<Self>) {
        match doc {
            Json::Str(text) => Self::from_name(text.as_str()),
            _ => None,
        }
    }

    fn duplicate(&self) -> (copy: Self) {
        *self
    }

    proof fn lemma_decode_encode(value: LndInvoiceState) {
        Self::lemma_named_name(value);
    }
}

/// The node's answer to a request for an invoice.
#[derive(Debug, Clone, PartialEq, Eq, Hash)]
pub struct LndPaymentInvoice {
    pub r_hash: String,
    pub payment_request: String,
    pub add_index: String,
    pub payment_addr: String,
}

/// Model of `LndPaymentInvoice`.
pub struct LndPaymentInvoiceView {
    pub r_hash: Seq<char>,
    pub payment_request: Seq<char>,
    pub add_index: Seq<char>,
    pub payment_addr: Seq<char>,
}

impl View for LndPaymentInvoice {
    type V = LndPaymentInvoiceView;

    open spec fn view(&self) -> LndPaymentInvoiceView {
        LndPaymentInvoiceView {
            r_hash: self.r_hash@,
            payment_request: self.payment_request@,
            add_index: self.add_index@,
            payment_addr: self.payment_addr@,
        }
    }
}

impl JsonRecord for LndPaymentInvoice {
    open spec fn encode(value: LndPaymentInvoiceView) -> JsonValue {
        JsonValue::Object(
            seq![
                ("r_hash"@, JsonValue::Str(value.r_hash)),
                ("payment_request"@, JsonValue::Str(value.payment_request)),
                ("add_index"@, JsonValue::Str(value.add_index)),
                ("payment_addr"@, JsonValue::Str(value.payment_addr)),
            ],
        )
    }

    open spec fn decode(doc: JsonValue) -> Option<LndPaymentInvoiceView> {
        if str_field(doc, "r_hash"@) is Some
            && str_field(doc, "payment_request"@) is Some
            && str_field(doc, "add_index"@) is Some
            && str_field(doc, "payment_addr"@) is Some {
            Some(
                LndPaymentInvoiceView {
                    r_hash: str_field(doc, "r_hash"@)->0,
                    payment_request: str_field(doc, "payment_request"@)->0,
                    add_index: str_field(doc, "add_index"@)->0,
                    payment_addr: str_field(doc, "payment_addr"@)->0,
                },
            )
        } else {
            None
        }
    }

    fn to_json(&self) -> (doc: Json) {
        let mut members = ObjectBuilder::new();
        members.member("r_hash", Json::string(self.r_hash.as_str()));
        members.member("payment_request", Json::string(self.payment_request.as_str()));
        members.member("add_index", Json::string(self.add_index.as_str()));
        members.member("payment_addr", Json::string(self.payment_addr.as_str()));
        let doc = members.finish();
        assert(doc@->Object_0 =~= Self::encode(self@)->Object_0);
        doc
    }

    fn from_json(doc: &Json) -> (value: Option<Self>) {
        let r_hash = match doc.read_string("r_hash") {
            Some(v) => v,
            None => return None,
        };
        let payment_request = match doc.read_string("payment_request") {
            Some(v) => v,
            None => return None,
        };
        let add_index = match doc.read_string("add_index") {
            Some(v) => v,
            None => return None,
        };
        let payment_addr = match doc.read_string("payment_addr") {
            Some(v) => v,
            None => return None,
        };
        Some(LndPaymentInvoice { r_hash, payment_request, add_index, payment_addr })
    }

    fn duplicate(&self) -> (copy: Self) {
        LndPaymentInvoice {
            r_hash: self.r_hash.clone(),
            payment_request: self.payment_request.clone(),
            add_index: self.add_index.clone(),
            payment_addr: self.payment_addr.clone(),
        }
    }

    proof fn lemma_decode_encode(value: LndPaymentInvoiceView) {
        reveal_strlit("r_hash");
        reveal_strlit("payment_request");
        reveal_strlit("add_index");
        reveal_strlit("payment_addr");
        assert("r_hash"@.len() == 6);
        assert("payment_request"@.len() == 15);
        assert("add_index"@.len() == 9);
        assert("payment_addr"@.len() == 12);
        let doc = Self::encode(value);
        let members = doc->Object_0;
        lemma_lookup_finds(members, "r_hash"@, 0, 0);
        lemma_lookup_finds(members, "payment_request"@, 0, 1);
        lemma_lookup_finds(members, "add_index"@, 0, 2);
        lemma_lookup_finds(members, "payment_addr"@, 0, 3);
    }
}

impl LndPaymentInvoice {
    /// Reads the record from a JSON text.
    pub fn try_from(value: String) -> (record: Result<Self, ChannelError>)
        ensures
            match decode_text::<LndPaymentInvoice>(value@) {
                Some(v) => record matches Ok(x) && x@ == v,
                None => record matches Err(e) && e == ChannelError::SerializationError,
            },
    {
        from_text(value.as_str())
    }

    /// Writes the record as one line of JSON.
    pub fn try_into(self) -> (text: Result<String, ChannelError>)
        ensures
            match json_text(LndPaymentInvoice::encode(self@)) {
                Some(t) => text matches Ok(s) && s@ == t,
                None => text matches Err(e) && e == ChannelError::SerializationError,
            },
    {
        to_text(&self)
    }

    /// The record as indented JSON.
    pub fn to_string(&self) -> (text: Result<String, ChannelError>)
        ensures
            match json_text_pretty(LndPaymentInvoice::encode(self@)) {
                Some(t) => text matches Ok(s) && s@ == t,
                None => text matches Err(e) && e == ChannelError::SerializationError,
            },
    {
        to_text_pretty(self)
    }

    /// The payment hash in URL-safe base64.
    pub fn r_hash_url_safe(&self) -> (text: String)
        requires
            base64_standard_decoded(self@.r_hash) is Some,
        ensures
            text@ == base64_url_safe(base64_standard_decoded(self@.r_hash)->0),
    {
        match decode_standard(self.r_hash.as_str()) {
            Some(bytes) => encode_url_safe(bytes.as_slice()),
            None => unreached(),
        }
    }

    /// The payment hash in URL-safe base64; `None` where `r_hash` is not
    /// base64.
    pub fn checked_r_hash_url_safe(&self) -> (text: Option<String>)
        ensures
            match base64_standard_decoded(self@.r_hash) {
                Some(bytes) => text matches Some(s) && s@ == base64_url_safe(bytes),
                None => text is None,
            },
    {
        match decode_standard(self.r_hash.as_str()) {
            Some(_) => Some(self.r_hash_url_safe()),
            None => None,
        }
    }

    /// The payment hash in lower-case hexadecimal.
    pub fn r_hash_hex(&self) -> (text: String)
        requires
            base64_standard_decoded(self@.r_hash) is Some,
        ensures
            text@ == hex_text(base64_standard_decoded(self@.r_hash)->0),
    {
        match decode_standard(self.r_hash.as_str()) {
            Some(bytes) => hex_encode(&bytes),
            None => unreached(),
        }
    }

    /// The payment hash in lower-case hexadecimal; `None` where `r_hash` is
    /// not base64.
    pub fn checked_r_hash_hex(&self) -> (text: Option<String>)
        ensures
            match base64_standard_decoded(self@.r_hash) {
                Some(bytes) => text matches Some(s) && s@ == hex_text(bytes),
                None => text is None,
            },
    {
        match decode_standard(self.r_hash.as_str()) {
            Some(_) => Some(self.r_hash_hex()),
            None => None,
        }
    }

    /// The bytes of the payment address.
    pub fn payment_hash(&self) -> (bytes: Vec<u8>)
        requires
            base64_standard_decoded(self@.payment_addr) is Some,
        ensures
            bytes@ == base64_standard_decoded(self@.payment_addr)->0,
    {
        match decode_standard(self.payment_addr.as_str()) {
            Some(bytes) => bytes,
            None => unreached(),
        }
    }

    /// The bytes of the payment address; `None` where `payment_addr` is not
    /// base64.
    pub fn checked_payment_hash(&self) -> (bytes: Option<Vec<u8>>)
        ensures
            bytes_opt_view(bytes) == base64_standard_decoded(self@.payment_addr),
    {
        match decode_standard(self.payment_addr.as_str()) {
            Some(_) => Some(self.payment_hash()),
            None => None,
        }
    }
}

/// An invoice as the node lists it and streams it.
#[derive(Debug, Clone, PartialEq, Eq, Hash)]
pub struct LndInvoice {
    pub r_preimage: String,
    pub r_hash: String,
    pub payment_request: String,
    pub add_index: String,
    pub payment_addr: String,
    /// Left out of the JSON form where there is none.
    pub memo: Option<String>,
    pub value: String,
    pub value_msat: String,
    pub settled: bool,
    pub creation_date: String,
    pub settle_date: String,
    pub state: LndInvoiceState,
}

/// Model of `LndInvoice`.
pub struct LndInvoiceView {
    pub r_preimage: Seq<char>,
    pub r_hash: Seq<char>,
    pub payment_request: Seq<char>,
    pub add_index: Seq<char>,
    pub payment_addr: Seq<char>,
    pub memo: Option<Seq<char>>,
    pub value: Seq<char>,
    pub value_msat: Seq<char>,
    pub settled: bool,
    pub creation_date: Seq<char>,
    pub settle_date: Seq<char>,
    pub state: <LndInvoiceState as View>::V,
}

impl View for LndInvoice {
    type V = LndInvoiceView;

    open spec fn view(&self) -> LndInvoiceView {
        LndInvoiceView {
            r_preimage: self.r_preimage@,
            r_hash: self.r_hash@,
            payment_request: self.payment_request@,
            add_index: self.add_index@,
            payment_addr: self.payment_addr@,
            memo: string_opt_view(self.memo),
            value: self.value@,
            value_msat: self.value_msat@,
            settled: self.settled,
            creation_date: self.creation_date@,
            settle_date: self.settle_date@,
            state: self.state@,
        }
    }
}

impl JsonRecord for LndInvoice {
    open spec fn encode(value: LndInvoiceView) -> JsonValue {
        if value.memo is Some {
            JsonValue::Object(
                seq![
                    ("r_preimage"@, JsonValue::Str(value.r_preimage)),
                    ("r_hash"@, JsonValue::Str(value.r_hash)),
                    ("payment_request"@, JsonValue::Str(value.payment_request)),
                    ("add_index"@, JsonValue::Str(value.add_index)),
                    ("payment_addr"@, JsonValue::Str(value.payment_addr)),
                    ("memo"@, optional_text(value.memo)),
                    ("value"@, JsonValue::Str(value.value)),
                    ("value_msat"@, JsonValue::Str(value.value_msat)),
                    ("settled"@, JsonValue::Bool(value.settled)),
                    ("creation_date"@, JsonValue::Str(value.creation_date)),
                    ("settle_date"@, JsonValue::Str(value.settle_date)),
                    ("state"@, LndInvoiceState::encode(value.state)),
                ],
            )
        } else {
            JsonValue::Object(
                seq![
                    ("r_preimage"@, JsonValue::Str(value.r_preimage)),
                    ("r_hash"@, JsonValue::Str(value.r_hash)),
                    ("payment_request"@, JsonValue::Str(value.payment_request)),
                    ("add_index"@, JsonValue::Str(value.add_index)),
                    ("payment_addr"@, JsonValue::Str(value.payment_addr)),
                    ("value"@, JsonValue::Str(value.value)),
                    ("value_msat"@, JsonValue::Str(value.value_msat)),
                    ("settled"@, JsonValue::Bool(value.settled)),
                    ("creation_date"@, JsonValue::Str(value.creation_date)),
                    ("settle_date"@, JsonValue::Str(value.settle_date)),
                    ("state"@, LndInvoiceState::encode(value.state)),
                ],
            )
        }
    }

    open spec fn decode(doc: JsonValue) -> Option<LndInvoiceView> {
        if str_field(doc, "r_preimage"@) is Some
            && str_field(doc, "r_hash"@) is Some
            && str_field(doc, "payment_request"@) is Some
            && str_field(doc, "add_index"@) is Some
            && str_field(doc, "payment_addr"@) is Some
            && opt_str_field(doc, "memo"@) is Some
            && str_field(doc, "value"@) is Some
            && str_field(doc, "value_msat"@) is Some
            && bool_field(doc, "settled"@) is Some
            && str_field(doc, "creation_date"@) is Some
            && str_field(doc, "settle_date"@) is Some
            && nested_field::<LndInvoiceState>(doc, "state"@) is Some {
            Some(
                LndInvoiceView {
                    r_preimage: str_field(doc, "r_preimage"@)->0,
                    r_hash: str_field(doc, "r_hash"@)->0,
                    payment_request: str_field(doc, "payment_request"@)->0,
                    add_index: str_field(doc, "add_index"@)->0,
                    payment_addr: str_field(doc, "payment_addr"@)->0,
                    memo: opt_str_field(doc, "memo"@)->0,
                    value: str_field(doc, "value"@)->0,
                    value_msat: str_field(doc, "value_msat"@)->0,
                    settled: bool_field(doc, "settled"@)->0,
                    creation_date: str_field(doc, "creation_date"@)->0,
                    settle_date: str_field(doc, "settle_date"@)->0,
                    state: nested_field::<LndInvoiceState>(doc, "state"@)->0,
                },
            )
        } else {
            None
        }
    }

    fn to_json(&self) -> (doc: Json) {
        let mut members = ObjectBuilder::new();
        members.member("r_preimage", Json::string(self.r_preimage.as_str()));
        members.member("r_hash", Json::string(self.r_hash.as_str()));
        members.member("payment_request", Json::string(self.payment_request.as_str()));
        members.member("add_index", Json::string(self.add_index.as_str()));
        members.member("payment_addr", Json::string(self.payment_addr.as_str()));
        if self.memo.is_some() {
            members.member("memo", optional_string(&self.memo));
        }
        members.member("value", Json::string(self.value.as_str()));
        members.member("value_msat", Json::string(self.value_msat.as_str()));
        members.member("settled", Json::Bool(self.settled));
        members.member("creation_date", Json::string(self.creation_date.as_str()));
        members.member("settle_date", Json::string(self.settle_date.as_str()));
        members.member("state", self.state.to_json());
        let doc = members.finish();
        assert(doc@->Object_0 =~= Self::encode(self@)->Object_0);
        doc
    }

    fn from_json(doc: &Json) -> (value: Option<Self>) {
        let r_preimage = match doc.read_string("r_preimage") {
            Some(v) => v,
            None => return None,
        };
        let r_hash = match doc.read_string("r_hash") {
            Some(v) => v,
            None => return None,
        };
        let payment_request = match doc.read_string("payment_request") {
            Some(v) => v,
            None => return None,
        };
        let add_index = match doc.read_string("add_index") {
            Some(v) => v,
            None => return None,
        };
        let payment_addr = match doc.read_string("payment_addr") {
            Some(v) => v,
            None => return None,
        };
        let memo = match doc.read_optional_string("memo") {
            Some(v) => v,
            None => return None,
        };
        let value = match doc.read_string("value") {
            Some(v) => v,
            None => return None,
        };
        let value_msat = match doc.read_string("value_msat") {
            Some(v) => v,
            None => return None,
        };
        let settled = match doc.read_bool("settled") {
            Some(v) => v,
            None => return None,
        };
        let creation_date = match doc.read_string("creation_date") {
            Some(v) => v,
            None => return None,
        };
        let settle_date = match doc.read_string("settle_date") {
            Some(v) => v,
            None => return None,
        };
        let state = match read_nested::<LndInvoiceState>(doc, "state") {
            Some(v) => v,
            None => return None,
        };
        Some(
            LndInvoice {
                r_preimage,
                r_hash,
                payment_request,
                add_index,
                payment_addr,
                memo,
                value,
                value_msat,
                settled,
                creation_date,
                settle_date,
                state,
            },
        )
    }

    fn duplicate(&self) -> (copy: Self) {
        LndInvoice {
            r_preimage: self.r_preimage.clone(),
            r_hash: self.r_hash.clone(),
            payment_request: self.payment_request.clone(),
            add_index: self.add_index.clone(),
            payment_addr: self.payment_addr.clone(),
            memo: duplicate_optional(&self.memo),
            value: self.value.clone(),
            value_msat: self.value_msat.clone(),
            settled: self.settled,
            creation_date: self.creation_date.clone(),
            settle_date: self.settle_date.clone(),
            state: self.state.duplicate(),
        }
    }

    proof fn lemma_decode_encode(value: LndInvoiceView) {
        reveal_strlit("r_preimage");
        reveal_strlit("r_hash");
        reveal_strlit("payment_request");
        reveal_strlit("add_index");
        reveal_strlit("payment_addr");
        reveal_strlit("memo");
        reveal_strlit("value");
        reveal_strlit("value_msat");
        reveal_strlit("settled");
        reveal_strlit("creation_date");
        reveal_strlit("settle_date");
        reveal_strlit("state");
        assert("r_preimage"@.len() == 10);
        assert("r_hash"@.len() == 6);
        assert("payment_request"@.len() == 15);
        assert("add_index"@.len() == 9);
        assert("payment_addr"@.len() == 12);
        assert("memo"@.len() == 4);
        assert("value"@.len() == 5);
        assert("value_msat"@.len() == 10);
        assert("settled"@.len() == 7);
        assert("creation_date"@.len() == 13);
        assert("settle_date"@.len() == 11);
        assert("state"@.len() == 5);
        assert("r_preimage"@[0] != "value_msat"@[0]);
        assert("value"@[0] != "state"@[0]);
        let doc = Self::encode(value);
        let members = doc->Object_0;
        if value.memo is Some {
            lemma_lookup_finds(members, "r_preimage"@, 0, 0);
            lemma_lookup_finds(members, "r_hash"@, 0, 1);
            lemma_lookup_finds(members, "payment_request"@, 0, 2);
            lemma_lookup_finds(members, "add_index"@, 0, 3);
            lemma_lookup_finds(members, "payment_addr"@, 0, 4);
            lemma_lookup_finds(members, "memo"@, 0, 5);
            lemma_lookup_finds(members, "value"@, 0, 6);
            lemma_lookup_finds(members, "value_msat"@, 0, 7);
            lemma_lookup_finds(members, "settled"@, 0, 8);
            lemma_lookup_finds(members, "creation_date"@, 0, 9);
            lemma_lookup_finds(members, "settle_date"@, 0, 10);
            lemma_lookup_finds(members, "state"@, 0, 11);
        } else {
            lemma_lookup_finds(members, "r_preimage"@, 0, 0);
            lemma_lookup_finds(members, "r_hash"@, 0, 1);
            lemma_lookup_finds(members, "payment_request"@, 0, 2);
            lemma_lookup_finds(members, "add_index"@, 0, 3);
            lemma_lookup_finds(members, "payment_addr"@, 0, 4);
            lemma_lookup_finds(members, "value"@, 0, 5);
            lemma_lookup_finds(members, "value_msat"@, 0, 6);
            lemma_lookup_finds(members, "settled"@, 0, 7);
            lemma_lookup_finds(members, "creation_date"@, 0, 8);
            lemma_lookup_finds(members, "settle_date"@, 0, 9);
            lemma_lookup_finds(members, "state"@, 0, 10);
            lemma_lookup_misses(members, "memo"@, 0);
        }
        LndInvoiceState::lemma_decode_encode(value.state);
    }
}

impl LndInvoice {
    /// Reads the record from a JSON text.
    pub fn try_from(value: String) -> (record: Result<Self, ChannelError>)
        ensures
            match decode_text::<LndInvoice>(value@) {
                Some(v) => record matches Ok(x) && x@ == v,
                None => record matches Err(e) && e == ChannelError::SerializationError,
            },
    {
        from_text(value.as_str())
    }

    /// Writes the record as one line of JSON.
    pub fn try_into(self) -> (text: Result<String, ChannelError>)
        ensures
            match json_text(LndInvoice::encode(self@)) {
                Some(t) => text matches Ok(s) && s@ == t,
                None => text matches Err(e) && e == ChannelError::SerializationError,
            },
    {
        to_text(&self)
    }

    /// The record as indented JSON.
    pub fn to_string(&self) -> (text: Result<String, ChannelError>)
        ensures
            match json_text_pretty(LndInvoice::encode(self@)) {
                Some(t) => text matches Ok(s) && s@ == t,
                None => text matches Err(e) && e == ChannelError::SerializationError,
            },
    {
        to_text_pretty(self)
    }

    /// The payment hash in URL-safe base64.
    pub fn r_hash_url_safe(&self) -> (text: String)
        requires
            base64_standard_decoded(self@.r_hash) is Some,
        ensures
            text@ == base64_url_safe(base64_standard_decoded(self@.r_hash)->0),
    {
        match decode_standard(self.r_hash.as_str()) {
            Some(bytes) => encode_url_safe(bytes.as_slice()),
            None => unreached(),
        }
    }

    /// The payment hash in URL-safe base64; `None` where `r_hash` is not
    /// base64.
    pub fn checked_r_hash_url_safe(&self) -> (text: Option<String>)
        ensures
            match base64_standard_decoded(self@.r_hash) {
                Some(bytes) => text matches Some(s) && s@ == base64_url_safe(bytes),
                None => text is None,
            },
    {
        match decode_standard(self.r_hash.as_str()) {
            Some(_) => Some(self.r_hash_url_safe()),
            None => None,
        }
    }

    /// The payment hash in lower-case hexadecimal.
    pub fn r_hash_hex(&self) -> (text: String)
        requires
            base64_standard_decoded(self@.r_hash) is Some,
        ensures
            text@ == hex_text(base64_standard_decoded(self@.r_hash)->0),
    {
        match decode_standard(self.r_hash.as_str()) {
            Some(bytes) => hex_encode(&bytes),
            None => unreached(),
        }
    }

    /// The payment hash in lower-case hexadecimal; `None` where `r_hash` is
    /// not base64.
    pub fn checked_r_hash_hex(&self) -> (text: Option<String>)
        ensures
            match base64_standard_decoded(self@.r_hash) {
                Some(bytes) => text matches Some(s) && s@ == hex_text(bytes),
                None => text is None,
            },
    {
        match decode_standard(self.r_hash.as_str()) {
            Some(_) => Some(self.r_hash_hex()),
            None => None,
        }
    }

    /// The bytes of the payment address.
    pub fn payment_hash(&self) -> (bytes: Vec<u8>)
        requires
            base64_standard_decoded(self@.payment_addr) is Some,
        ensures
            bytes@ == base64_standard_decoded(self@.payment_addr)->0,
    {
        match decode_standard(self.payment_addr.as_str()) {
            Some(bytes) => bytes,
            None => unreached(),
        }
    }

    /// The bytes of the payment address; `None` where `payment_addr` is not
    /// base64.
    pub fn checked_payment_hash(&self) -> (bytes: Option<Vec<u8>>)
        ensures
            bytes_opt_view(bytes) == base64_standard_decoded(self@.payment_addr),
    {
        match decode_standard(self.payment_addr.as_str()) {
            Some(_) => Some(self.payment_hash()),
            None => None,
        }
    }
}

/// One page of the node's invoices.
#[derive(Debug, Clone, PartialEq, Eq, Hash)]
pub struct LndInvoiceList {
    pub invoices: Vec<LndInvoice>,
    pub last_index_offset: String,
    pub first_index_offset: String,
}

/// Model of `LndInvoiceList`.
pub struct LndInvoiceListView {
    pub invoices: Seq<<LndInvoice as View>::V>,
    pub last_index_offset: Seq<char>,
    pub first_index_offset: Seq<char>,
}

impl View for LndInvoiceList {
    type V = LndInvoiceListView;

    open spec fn view(&self) -> LndInvoiceListView {
        LndInvoiceListView {
            invoices: views(self.invoices@),
            last_index_offset: self.last_index_offset@,
            first_index_offset: self.first_index_offset@,
        }
    }
}

impl JsonRecord for LndInvoiceList {
    open spec fn encode(value: LndInvoiceListView) -> JsonValue {
        JsonValue::Object(
            seq![
                ("invoices"@, JsonValue::Array(encode_all::<LndInvoice>(value.invoices))),
                ("last_index_offset"@, JsonValue::Str(value.last_index_offset)),
                ("first_index_offset"@, JsonValue::Str(value.first_index_offset)),
            ],
        )
    }

    open spec fn decode(doc: JsonValue) -> Option<LndInvoiceListView> {
        if list_field::<LndInvoice>(doc, "invoices"@) is Some
            && str_field(doc, "last_index_offset"@) is Some
            && str_field(doc, "first_index_offset"@) is Some {
            Some(
                LndInvoiceListView {
                    invoices: list_field::<LndInvoice>(doc, "invoices"@)->0,
                    last_index_offset: str_field(doc, "last_index_offset"@)->0,
                    first_index_offset: str_field(doc, "first_index_offset"@)->0,
                },
            )
        } else {
            None
        }
    }

    fn to_json(&self) -> (doc: Json) {
        let mut members = ObjectBuilder::new();
        members.member("invoices", list_to_json(&self.invoices));
        members.member("last_index_offset", Json::string(self.last_index_offset.as_str()));
        members.member("first_index_offset", Json::string(self.first_index_offset.as_str()));
        let doc = members.finish();
        assert(doc@->Object_0 =~= Self::encode(self@)->Object_0);
        doc
    }

    fn from_json(doc: &Json) -> (value: Option<Self>) {
        let invoices = match read_list::<LndInvoice>(doc, "invoices") {
            Some(v) => v,
            None => return None,
        };
        let last_index_offset = match doc.read_string("last_index_offset") {
            Some(v) => v,
            None => return None,
        };
        let first_index_offset = match doc.read_string("first_index_offset") {
            Some(v) => v,
            None => return None,
        };
        Some(LndInvoiceList { invoices, last_index_offset, first_index_offset })
    }

    fn duplicate(&self) -> (copy: Self) {
        LndInvoiceList {
            invoices: duplicate_list(&self.invoices),
            last_index_offset: self.last_index_offset.clone(),
            first_index_offset: self.first_index_offset.clone(),
        }
    }

    proof fn lemma_decode_encode(value: LndInvoiceListView) {
        reveal_strlit("invoices");
        reveal_strlit("last_index_offset");
        reveal_strlit("first_index_offset");
        assert("invoices"@.len() == 8);
        assert("last_index_offset"@.len() == 17);
        assert("first_index_offset"@.len() == 18);
        let doc = Self::encode(value);
        let members = doc->Object_0;
        lemma_lookup_finds(members, "invoices"@, 0, 0);
        lemma_lookup_finds(members, "last_index_offset"@, 0, 1);
        lemma_lookup_finds(members, "first_index_offset"@, 0, 2);
        lemma_decode_all_encode_all::<LndInvoice>(value.invoices);
    }
}

impl LndInvoiceList {
    /// Reads the record from a JSON text.
    pub fn try_from(value: String) -> (record: Result<Self, ChannelError>)
        ensures
            match decode_text::<LndInvoiceList>(value@) {
                Some(v) => record matches Ok(x) && x@ == v,
                None => record matches Err(e) && e == ChannelError::SerializationError,
            },
    {
        from_text(value.as_str())
    }

    /// Writes the record as one line of JSON.
    pub fn try_into(self) -> (text: Result<String, ChannelError>)
        ensures
            match json_text(LndInvoiceList::encode(self@)) {
                Some(t) => text matches Ok(s) && s@ == t,
                None => text matches Err(e) && e == ChannelError::SerializationError,
            },
    {
        to_text(&self)
    }
}

/// A fresh on-chain address.
#[derive(Debug, Clone, PartialEq, Eq, Hash)]
pub struct LndNewAddress {
    pub addr: String,
}

/// Model of `LndNewAddress`.
pub struct LndNewAddressView {
    pub addr: Seq<char>,
}

impl View for LndNewAddress {
    type V = LndNewAddressView;

    open spec fn view(&self) -> LndNewAddressView {
        LndNewAddressView {
            addr: self.addr@,
        }
    }
}

impl JsonRecord for LndNewAddress {
    open spec fn encode(value: LndNewAddressView) -> JsonValue {
        JsonValue::Object(
            seq![
                ("addr"@, JsonValue::Str(value.addr)),
            ],
        )
    }

    open spec fn decode(doc: JsonValue) -> Option<LndNewAddressView> {
        if str_field(doc, "addr"@) is Some {
            Some(
                LndNewAddressView {
                    addr: str_field(doc, "addr"@)->0,
                },
            )
        } else {
            None
        }
    }

    fn to_json(&self) -> (doc: Json) {
        let mut members = ObjectBuilder::new();
        members.member("addr", Json::string(self.addr.as_str()));
        let doc = members.finish();
        assert(doc@->Object_0 =~= Self::encode(self@)->Object_0);
        doc
    }

    fn from_json(doc: &Json) -> (value: Option<Self>) {
        let addr = match doc.read_string("addr") {
            Some(v) => v,
            None => return None,
        };
        Some(LndNewAddress { addr })
    }

    fn duplicate(&self) -> (copy: Self) {
        LndNewAddress {
            addr: self.addr.clone(),
        }
    }

    proof fn lemma_decode_encode(value: LndNewAddressView) {
        reveal_strlit("addr");
        let doc = Self::encode(value);
        let members = doc->Object_0;
        lemma_lookup_finds(members, "addr"@, 0, 0);
    }
}

impl LndNewAddress {
    /// Reads the record from a JSON text.
    pub fn try_from(value: String) -> (record: Result<Self, ChannelError>)
        ensures
            match decode_text::<LndNewAddress>(value@) {
                Some(v) => record matches Ok(x) && x@ == v,
                None => record matches Err(e) && e == ChannelError::SerializationError,
            },
    {
        from_text(value.as_str())
    }

    /// Writes the record as one line of JSON.
    pub fn try_into(self) -> (text: Result<String, ChannelError>)
        ensures
            match json_text(LndNewAddress::encode(self@)) {
                Some(t) => text matches Ok(s) && s@ == t,
                None => text matches Err(e) && e == ChannelError::SerializationError,
            },
    {
        to_text(&self)
    }
}

/// A request for the next on-chain address of an account.
#[derive(Debug, Clone, PartialEq, Eq, Hash)]
pub struct LndNextAddressRequest {
    account: String,
    address_type: OnchainAddressType,
    change: bool,
}

/// Model of `LndNextAddressRequest`.
pub struct LndNextAddressRequestView {
    pub account: Seq<char>,
    pub address_type: <OnchainAddressType as View>::V,
    pub change: bool,
}

impl View for LndNextAddressRequest {
    type V = LndNextAddressRequestView;

    closed spec fn view(&self) -> LndNextAddressRequestView {
        LndNextAddressRequestView {
            account: self.account@,
            address_type: self.address_type@,
            change: self.change,
        }
    }
}

impl JsonRecord for LndNextAddressRequest {
    open spec fn encode(value: LndNextAddressRequestView) -> JsonValue {
        JsonValue::Object(
            seq![
                ("account"@, JsonValue::Str(value.account)),
                ("type"@, OnchainAddressType::encode(value.address_type)),
                ("change"@, JsonValue::Bool(value.change)),
            ],
        )
    }

    open spec fn decode(doc: JsonValue) -> Option<LndNextAddressRequestView> {
        if str_field(doc, "account"@) is Some
            && nested_field::<OnchainAddressType>(doc, "type"@) is Some
            && bool_field(doc, "change"@) is Some {
            Some(
                LndNextAddressRequestView {
                    account: str_field(doc, "account"@)->0,
                    address_type: nested_field::<OnchainAddressType>(doc, "type"@)->0,
                    change: bool_field(doc, "change"@)->0,
                },
            )
        } else {
            None
        }
    }

    fn to_json(&self) -> (doc: Json) {
        let mut members = ObjectBuilder::new();
        members.member("account", Json::string(self.account.as_str()));
        members.member("type", self.address_type.to_json());
        members.member("change", Json::Bool(self.change));
        let doc = members.finish();
        assert(doc@->Object_0 =~= Self::encode(self@)->Object_0);
        doc
    }

    fn from_json(doc: &Json) -> (value: Option<Self>) {
        let account = match doc.read_string("account") {
            Some(v) => v,
            None => return None,
        };
        let address_type = match read_nested::<OnchainAddressType>(doc, "type") {
            Some(v) => v,
            None => return None,
        };
        let change = match doc.read_bool("change") {
            Some(v) => v,
            None => return None,
        };
        Some(LndNextAddressRequest { account, address_type, change })
    }

    fn duplicate(&self) -> (copy: Self) {
        LndNextAddressRequest {
            account: self.account.clone(),
            address_type: self.address_type.duplicate(),
            change: self.change,
        }
    }

    proof fn lemma_decode_encode(value: LndNextAddressRequestView) {
        reveal_strlit("account");
        reveal_strlit("type");
        reveal_strlit("change");
        assert("account"@.len() == 7);
        assert("type"@.len() == 4);
        assert("change"@.len() == 6);
        let doc = Self::encode(value);
        let members = doc->Object_0;
        lemma_lookup_finds(members, "account"@, 0, 0);
        lemma_lookup_finds(members, "type"@, 0, 1);
        lemma_lookup_finds(members, "change"@, 0, 2);
        OnchainAddressType::lemma_decode_encode(value.address_type);
    }
}

impl LndNextAddressRequest {
    /// Reads the record from a JSON text.
    pub fn try_from(value: String) -> (record: Result<Self, ChannelError>)
        ensures
            match decode_text::<LndNextAddressRequest>(value@) {
                Some(v) => record matches Ok(x) && x@ == v,
                None => record matches Err(e) && e == ChannelError::SerializationError,
            },
    {
        from_text(value.as_str())
    }

    /// Writes the record as one line of JSON.
    pub fn try_into(self) -> (text: Result<String, ChannelError>)
        ensures
            match json_text(LndNextAddressRequest::encode(self@)) {
                Some(t) => text matches Ok(s) && s@ == t,
                None => text matches Err(e) && e == ChannelError::SerializationError,
            },
    {
        to_text(&self)
    }

    pub fn account(&self) -> (account: String)
        ensures
            account@ == self@.account,
    {
        self.account.clone()
    }

    pub fn address_type(&self) -> (kind: OnchainAddressType)
        ensures
            kind == self@.address_type,
    {
        self.address_type
    }

    pub fn change(&self) -> (change: bool)
        ensures
            change == self@.change,
    {
        self.change
    }
}

impl Default for LndNextAddressRequest {
    fn default() -> (request: Self)
        ensures
            request@ == (LndNextAddressRequestView {
                account: Seq::empty(),
                address_type: OnchainAddressType::TaprootPubkey,
                change: false,
            }),
    {
        LndNextAddressRequest {
            account: String::new(),
            address_type: OnchainAddressType::TaprootPubkey,
            change: false,
        }
    }
}

} // verus!
