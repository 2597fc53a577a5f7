//! Hold invoices and their states.

use crate::error::ChannelError;
use crate::json::{
    bool_field, json_text, json_text_pretty, lemma_lookup_finds, str_field, Json, JsonValue,
    ObjectBuilder,
};
use crate::lnd::models::{
    decode_text, from_text, nested_field, read_nested, to_text, to_text_pretty, JsonRecord,
};
use crate::bolt11::{bolt11_fields, Bolt11Fields};
use crate::codec::{base64_url_safe, encode_url_safe};
use crate::text::str_eq;
use vstd::pervasive::unreached;
use vstd::string::*;
use vstd::utf8::encode_utf8;
use vstd::prelude::*;

verus! {

/// The node's answer to a request for a hold invoice.
#[derive(Debug, Clone, PartialEq, Eq, Hash)]
pub struct LndHodlInvoice {
    payment_addr: String,
    payment_request: String,
    add_index: String,
}

/// Model of `LndHodlInvoice`.
pub struct LndHodlInvoiceView {
    pub payment_addr: Seq<char>,
    pub payment_request: Seq<char>,
    pub add_index: Seq<char>,
}

impl View for LndHodlInvoice {
    type V = LndHodlInvoiceView;

    closed spec fn view(&self) -> LndHodlInvoiceView {
        LndHodlInvoiceView {
            payment_addr: self.payment_addr@,
            payment_request: self.payment_request@,
            add_index: self.add_index@,
        }
    }
}

impl JsonRecord for LndHodlInvoice {
    open spec fn encode(value: LndHodlInvoiceView) -> JsonValue {
        JsonValue::Object(
            seq![
                ("payment_addr"@, JsonValue::Str(value.payment_addr)),
                ("payment_request"@, JsonValue::Str(value.payment_request)),
                ("add_index"@, JsonValue::Str(value.add_index)),
            ],
        )
    }

    open spec fn decode(doc: JsonValue) -> Option<LndHodlInvoiceView> {
        if str_field(doc, "payment_addr"@) is Some
            && str_field(doc, "payment_request"@) is Some
            && str_field(doc, "add_index"@) is Some {
            Some(
                LndHodlInvoiceView {
                    payment_addr: str_field(doc, "payment_addr"@)->0,
                    payment_request: str_field(doc, "payment_request"@)->0,
                    add_index: str_field(doc, "add_index"@)->0,
                },
            )
        } else {
            None
        }
    }

    fn to_json(&self) -> (doc: Json) {
        let mut members = ObjectBuilder::new();
        members.member("payment_addr", Json::string(self.payment_addr.as_str()));
        members.member("payment_request", Json::string(self.payment_request.as_str()));
        members.member("add_index", Json::string(self.add_index.as_str()));
        let doc = members.finish();
        assert(doc@->Object_0 =~= Self::encode(self@)->Object_0);
        doc
    }

    fn from_json(doc: &Json) -> (value: Option<Self>) {
        let payment_addr = match doc.read_string("payment_addr") {
            Some(v) => v,
            None => return None,
        };
        let payment_request = match doc.read_string("payment_request") {
            Some(v) => v,
            None => return None,
        };
        let add_index = match doc.read_string("add_index") {
            Some(v) => v,
            None => return None,
        };
        Some(LndHodlInvoice { payment_addr, payment_request, add_index })
    }

    fn duplicate(&self) -> (copy: Self) {
        LndHodlInvoice {
            payment_addr: self.payment_addr.clone(),
            payment_request: self.payment_request.clone(),
            add_index: self.add_index.clone(),
        }
    }

    proof fn lemma_decode_encode(value: LndHodlInvoiceView) {
        reveal_strlit("payment_addr");
        reveal_strlit("payment_request");
        reveal_strlit("add_index");
        assert("payment_addr"@.len() == 12);
        assert("payment_request"@.len() == 15);
        assert("add_index"@.len() == 9);
        let doc = Self::encode(value);
        let members = doc->Object_0;
        lemma_lookup_finds(members, "payment_addr"@, 0, 0);
        lemma_lookup_finds(members, "payment_request"@, 0, 1);
        lemma_lookup_finds(members, "add_index"@, 0, 2);
    }
}

impl LndHodlInvoice {
    /// Reads the record from a JSON text.
    pub fn try_from(value: String) -> (record: Result<Self, ChannelError>)
        ensures
            match decode_text::<LndHodlInvoice>(value@) {
                Some(v) => record matches Ok(x) && x@ == v,
                None => record matches Err(e) && e == ChannelError::SerializationError,
            },
    {
        from_text(value.as_str())
    }

    /// Writes the record as one line of JSON.
    pub fn try_into(self) -> (text: Result<String, ChannelError>)
        ensures
            match json_text(LndHodlInvoice::encode(self@)) {
                Some(t) => text matches Ok(s) && s@ == t,
                None => text matches Err(e) && e == ChannelError::SerializationError,
            },
    {
        to_text(&self)
    }

    /// The record as indented JSON.
    pub fn to_string(&self) -> (text: Result<String, ChannelError>)
        ensures
            match json_text_pretty(LndHodlInvoice::encode(self@)) {
                Some(t) => text matches Ok(s) && s@ == t,
                None => text matches Err(e) && e == ChannelError::SerializationError,
            },
    {
        to_text_pretty(self)
    }

    /// The bytes of the payment address as it is written.
    pub fn payment_hash(&self) -> (bytes: Vec<u8>)
        ensures
            bytes@ == encode_utf8(self@.payment_addr),
    {
        self.payment_addr.as_str().as_bytes_vec()
    }

    pub fn payment_request(&self) -> (request: String)
        ensures
            request@ == self@.payment_request,
    {
        self.payment_request.clone()
    }

    pub fn add_index(&self) -> (index: String)
        ensures
            index@ == self@.add_index,
    {
        self.add_index.clone()
    }

    /// The payment address as it is written, in URL-safe base64.
    pub fn r_hash_url_safe(&self) -> (text: Result<String, ChannelError>)
        ensures
            text matches Ok(s) && s@ == base64_url_safe(encode_utf8(self@.payment_addr)),
    {
        Ok(encode_url_safe(self.payment_addr.as_str().as_bytes()))
    }

    /// The amount of the payment request in whole satoshis, where the
    /// request is a BOLT11 invoice that names an amount.
    pub open spec fn spec_sat_amount(request: Seq<char>) -> Option<u64> {
        match bolt11_fields(request) {
            Some(fields) => match fields.amount_msat {
                Some(msat) => Some(msat / 1000),
                None => None,
            },
            None => None,
        }
    }

    /// The amount of the payment request in whole satoshis.
    pub fn sat_amount(&self) -> (sats: u64)
        requires
            Self::spec_sat_amount(self@.payment_request) is Some,
        ensures
            Some(sats) == Self::spec_sat_amount(self@.payment_request),
    {
        match Bolt11Fields::parse(self.payment_request.as_str()) {
            Some(fields) => match fields.amount_msat {
                Some(msat) => msat / 1000,
                None => unreached(),
            },
            None => unreached(),
        }
    }

    /// The amount of the payment request in whole satoshis; `None` where the
    /// request is no BOLT11 invoice or names no amount.
    pub fn checked_sat_amount(&self) -> (sats: Option<u64>)
        ensures
            sats == Self::spec_sat_amount(self@.payment_request),
    {
        match Bolt11Fields::parse(self.payment_request.as_str()) {
            Some(fields) => match fields.amount_msat {
                Some(_) => Some(self.sat_amount()),
                None => None,
            },
            None => None,
        }
    }
}

/// The state of a hold invoice.
#[derive(Debug, Clone, Copy, PartialEq, Eq, Hash, Structural)]
pub enum HodlState {
    OPEN,
    ACCEPTED,
    CANCELED,
    SETTLED,
}

impl View for HodlState {
    type V = HodlState;

    open spec fn view(&self) -> HodlState {
        *self
    }
}

impl HodlState {
    /// The name that stands for a variant on the wire.
    pub open spec fn name(self) -> Seq<char> {
        match self {
            HodlState::OPEN => "OPEN"@,
            HodlState::ACCEPTED => "ACCEPTED"@,
            HodlState::CANCELED => "CANCELED"@,
            HodlState::SETTLED => "SETTLED"@,
        }
    }

    /// The variant that a name stands for.
    pub open spec fn named(text: Seq<char>) -> Option<HodlState> {
        if text == "OPEN"@ {
            Some(HodlState::OPEN)
        } else if text == "ACCEPTED"@ {
            Some(HodlState::ACCEPTED)
        } else if text == "CANCELED"@ {
            Some(HodlState::CANCELED)
        } else if text == "SETTLED"@ {
            Some(HodlState::SETTLED)
        } else {
            None
        }
    }

    /// The name that stands for the variant on the wire.
    pub fn as_str(&self) -> (text: &'static str)
        ensures
            text@ == self.name(),
    {
        match self {
            HodlState::OPEN => "OPEN",
            HodlState::ACCEPTED => "ACCEPTED",
            HodlState::CANCELED => "CANCELED",
            HodlState::SETTLED => "SETTLED",
        }
    }

    /// The variant that `text` names.
    pub fn from_name(text: &str) -> (variant: Option<Self>)
        ensures
            variant == Self::named(text@),
    {
        if str_eq(text, "OPEN") {
            Some(HodlState::OPEN)
        } else if str_eq(text, "ACCEPTED") {
            Some(HodlState::ACCEPTED)
        } else if str_eq(text, "CANCELED") {
            Some(HodlState::CANCELED)
        } else if str_eq(text, "SETTLED") {
            Some(HodlState::SETTLED)
        } else {
            None
        }
    }

    /// A name is read back as the variant it was written for.
    pub proof fn lemma_named_name(variant: HodlState)
        ensures
            Self::named(variant.name()) == Some(variant),
    {
        reveal_strlit("OPEN");
        reveal_strlit("ACCEPTED");
        reveal_strlit("CANCELED");
        reveal_strlit("SETTLED");
        assert("OPEN"@.len() == 4);
        assert("ACCEPTED"@.len() == 8);
        assert("CANCELED"@.len() == 8);
        assert("SETTLED"@.len() == 7);
        assert("ACCEPTED"@[0] != "CANCELED"@[0]);
    }

    /// Reads a state from its bare name.
    pub fn try_from(value: String) -> (state: Result<Self, ChannelError>)
        ensures
            match Self::named(value@) {
                Some(s) => state == Ok::<HodlState, ChannelError>(s),
                None => state == Err::<HodlState, ChannelError>(ChannelError::SerializationError),
            },
    {
        match Self::from_name(value.as_str()) {
            Some(s) => Ok(s),
            None => Err(ChannelError::SerializationError),
        }
    }

    /// The bare name of the state.
    pub fn try_into(self) -> (text: Result<String, ChannelError>)
        ensures
            text matches Ok(s) && s@ == self.name(),
    {
        Ok(String::from_str(self.as_str()))
    }

    /// The variant as indented JSON: its name in quotes.
    pub fn to_string(&self) -> (text: Result<String, ChannelError>)
        ensures
            match json_text_pretty(HodlState::encode(self@)) {
                Some(t) => text matches Ok(s) && s@ == t,
                None => text matches Err(e) && e == ChannelError::SerializationError,
            },
    {
        to_text_pretty(self)
    }
}

impl JsonRecord for HodlState {
    open spec fn encode(value: HodlState) -> JsonValue {
        JsonValue::Str(value.name())
    }

    open spec fn decode(doc: JsonValue) -> Option<HodlState> {
        match doc {
            JsonValue::Str(text) => Self::named(text),
            _ => None,
        }
    }

    fn to_json(&self) -> (doc: Json) {
        Json::string(self.as_str())
    }

    fn from_json(doc: &Json) -> (value: Option<Self>) {
        match doc {
            Json::Str(text) => Self::from_name(text.as_str()),
            _ => None,
        }
    }

    fn duplicate(&self) -> (copy: Self) {
        *self
    }

    proof fn lemma_decode_encode(value: HodlState) {
        Self::lemma_named_name(value);
    }
}

/// One update on a hold invoice, as the invoice subscription streams it.
#[derive(Debug, Clone)]
pub struct LndHodlInvoiceState {
    settled: bool,
    state: HodlState,
    r_hash: String,
    payment_request: String,
}

/// Model of `LndHodlInvoiceState`.
pub struct LndHodlInvoiceStateView {
    pub settled: bool,
    pub state: <HodlState as View>::V,
    pub r_hash: Seq<char>,
    pub payment_request: Seq<char>,
}

impl View for LndHodlInvoiceState {
    type V = LndHodlInvoiceStateView;

    closed spec fn view(&self) -> LndHodlInvoiceStateView {
        LndHodlInvoiceStateView {
            settled: self.settled,
            state: self.state@,
            r_hash: self.r_hash@,
            payment_request: self.payment_request@,
        }
    }
}

impl JsonRecord for LndHodlInvoiceState {
    open spec fn encode(value: LndHodlInvoiceStateView) -> JsonValue {
        JsonValue::Object(
            seq![
                ("settled"@, JsonValue::Bool(value.settled)),
                ("state"@, HodlState::encode(value.state)),
                ("r_hash"@, JsonValue::Str(value.r_hash)),
                ("payment_request"@, JsonValue::Str(value.payment_request)),
            ],
        )
    }

    open spec fn decode(doc: JsonValue) -> Option<LndHodlInvoiceStateView> {
        if bool_field(doc, "settled"@) is Some
            && nested_field::<HodlState>(doc, "state"@) is Some
            && str_field(doc, "r_hash"@) is Some
            && str_field(doc, "payment_request"@) is Some {
            Some(
                LndHodlInvoiceStateView {
                    settled: bool_field(doc, "settled"@)->0,
                    state: nested_field::<HodlState>(doc, "state"@)->0,
                    r_hash: str_field(doc, "r_hash"@)->0,
                    payment_request: str_field(doc, "payment_request"@)->0,
                },
            )
        } else {
            None
        }
    }

    fn to_json(&self) -> (doc: Json) {
        let mut members = ObjectBuilder::new();
        members.member("settled", Json::Bool(self.settled));
        members.member("state", self.state.to_json());
        members.member("r_hash", Json::string(self.r_hash.as_str()));
        members.member("payment_request", Json::string(self.payment_request.as_str()));
        let doc = members.finish();
        assert(doc@->Object_0 =~= Self::encode(self@)->Object_0);
        doc
    }

    fn from_json(doc: &Json) -> (value: Option<Self>) {
        let settled = match doc.read_bool("settled") {
            Some(v) => v,
            None => return None,
        };
        let state = match read_nested::<HodlState>(doc, "state") {
            Some(v) => v,
            None => return None,
        };
        let r_hash = match doc.read_string("r_hash") {
            Some(v) => v,
            None => return None,
        };
        let payment_request = match doc.read_string("payment_request") {
            Some(v) => v,
            None => return None,
        };
        Some(LndHodlInvoiceState { settled, state, r_hash, payment_request })
    }

    fn duplicate(&self) -> (copy: Self) {
        LndHodlInvoiceState {
            settled: self.settled,
            state: self.state.duplicate(),
            r_hash: self.r_hash.clone(),
            payment_request: self.payment_request.clone(),
        }
    }

    proof fn lemma_decode_encode(value: LndHodlInvoiceStateView) {
        reveal_strlit("settled");
        reveal_strlit("state");
        reveal_strlit("r_hash");
        reveal_strlit("payment_request");
        assert("settled"@.len() == 7);
        assert("state"@.len() == 5);
        assert("r_hash"@.len() == 6);
        assert("payment_request"@.len() == 15);
        let doc = Self::encode(value);
        let members = doc->Object_0;
        lemma_lookup_finds(members, "settled"@, 0, 0);
        lemma_lookup_finds(members, "state"@, 0, 1);
        lemma_lookup_finds(members, "r_hash"@, 0, 2);
        lemma_lookup_finds(members, "payment_request"@, 0, 3);
        HodlState::lemma_decode_encode(value.state);
    }
}

impl LndHodlInvoiceState {
    /// Reads the record from a JSON text.
    pub fn try_from(value: String) -> (record: Result<Self, ChannelError>)
        ensures
            match decode_text::<LndHodlInvoiceState>(value@) {
                Some(v) => record matches Ok(x) && x@ == v,
                None => record matches Err(e) && e == ChannelError::SerializationError,
            },
    {
        from_text(value.as_str())
    }

    /// Writes the record as one line of JSON.
    pub fn try_into(self) -> (text: Result<String, ChannelError>)
        ensures
            match json_text(LndHodlInvoiceState::encode(self@)) {
                Some(t) => text matches Ok(s) && s@ == t,
                None => text matches Err(e) && e == ChannelError::SerializationError,
            },
    {
        to_text(&self)
    }

    /// The record as indented JSON.
    pub fn to_string(&self) -> (text: Result<String, ChannelError>)
        ensures
            match json_text_pretty(LndHodlInvoiceState::encode(self@)) {
                Some(t) => text matches Ok(s) && s@ == t,
                None => text matches Err(e) && e == ChannelError::SerializationError,
            },
    {
        to_text_pretty(self)
    }

    pub fn settled(&self) -> (settled: bool)
        ensures
            settled == self@.settled,
    {
        self.settled
    }

    pub fn state(&self) -> (state: HodlState)
        ensures
            state == self@.state,
    {
        self.state
    }

    pub fn r_hash(&self) -> (hash: String)
        ensures
            hash@ == self@.r_hash,
    {
        self.r_hash.clone()
    }

    /// The hash as it is written, in URL-safe base64.
    pub fn r_hash_url_safe(&self) -> (text: String)
        ensures
            text@ == base64_url_safe(encode_utf8(self@.r_hash)),
    {
        encode_url_safe(self.r_hash.as_str().as_bytes())
    }

    pub fn payment_request(&self) -> (request: String)
        ensures
            request@ == self@.payment_request,
    {
        self.payment_request.clone()
    }
}

} // verus!
