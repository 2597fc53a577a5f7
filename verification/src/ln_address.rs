//! Lightning addresses: from `user@domain` to a payable request, in two
//! lookups. The decisions are made here; fetching is left to the transport.

use crate::bolt11::{bolt11_fields, Bolt11Fields};
use crate::codec::{base64_standard, base64_url_safe, encode_standard, encode_url_safe};
use crate::error::{ChannelError, LnAddressError};
use crate::json::{
    int_field, json_text, lemma_lookup_finds, str_field, Json, JsonValue, ObjectBuilder,
};
use crate::lnd::models::{decode_text, from_text, to_text, JsonRecord};
use crate::text::{concat, decimal, decimal_text, find_char, first_index};
use vstd::prelude::*;
use vstd::string::*;

verus! {

/// The payable request that a lightning address service hands out.
#[derive(Debug, Clone, PartialEq, Eq, Hash)]
pub struct LnAddressPaymentRequest {
    /// The request, a BOLT11 invoice.
    pub pr: String,
}

/// Model of `LnAddressPaymentRequest`.
pub struct LnAddressPaymentRequestView {
    pub pr: Seq<char>,
}

impl View for LnAddressPaymentRequest {
    type V = LnAddressPaymentRequestView;

    open spec fn view(&self) -> LnAddressPaymentRequestView {
        LnAddressPaymentRequestView {
            pr: self.pr@,
        }
    }
}

impl JsonRecord for LnAddressPaymentRequest {
    open spec fn encode(value: LnAddressPaymentRequestView) -> JsonValue {
        JsonValue::Object(
            seq![
                ("pr"@, JsonValue::Str(value.pr)),
            ],
        )
    }

    open spec fn decode(doc: JsonValue) -> Option<LnAddressPaymentRequestView> {
        if str_field(doc, "pr"@) is Some {
            Some(
                LnAddressPaymentRequestView {
                    pr: str_field(doc, "pr"@)->0,
                },
            )
        } else {
            None
        }
    }

    fn to_json(&self) -> (doc: Json) {
        let mut members = ObjectBuilder::new();
        members.member("pr", Json::string(self.pr.as_str()));
        let doc = members.finish();
        assert(doc@->Object_0 =~= Self::encode(self@)->Object_0);
        doc
    }

    fn from_json(doc: &Json) -> (value: Option<Self>) {
        let pr = match doc.read_string("pr") {
            Some(v) => v,
            None => return None,
        };
        Some(LnAddressPaymentRequest { pr })
    }

    fn duplicate(&self) -> (copy: Self) {
        LnAddressPaymentRequest {
            pr: self.pr.clone(),
        }
    }

    proof fn lemma_decode_encode(value: LnAddressPaymentRequestView) {
        reveal_strlit("pr");
        let doc = Self::encode(value);
        let members = doc->Object_0;
        lemma_lookup_finds(members, "pr"@, 0, 0);
    }
}

impl LnAddressPaymentRequest {
    /// Reads the record from a JSON text.
    pub fn try_from(value: String) -> (record: Result<Self, ChannelError>)
        ensures
            match decode_text::<LnAddressPaymentRequest>(value@) {
                Some(v) => record matches Ok(x) && x@ == v,
                None => record matches Err(e) && e == ChannelError::SerializationError,
            },
    {
        from_text(value.as_str())
    }

    /// The record as one line of JSON.
    pub fn to_string(&self) -> (text: Result<String, ChannelError>)
        ensures
            match json_text(LnAddressPaymentRequest::encode(self@)) {
                Some(t) => text matches Ok(s) && s@ == t,
                None => text matches Err(e) && e == ChannelError::SerializationError,
            },
    {
        to_text(self)
    }
}

/// What a lightning address service says of a receiver: where to ask for a
/// payable request, and the amounts in millisatoshis that it accepts.
#[derive(Debug, Clone)]
pub struct LnAddressConfirmation {
    pub callback: String,
    pub min_sendable: u64,
    pub max_sendable: u64,
}

/// Model of `LnAddressConfirmation`.
pub struct LnAddressConfirmationView {
    pub callback: Seq<char>,
    pub min_sendable: u64,
    pub max_sendable: u64,
}

impl View for LnAddressConfirmation {
    type V = LnAddressConfirmationView;

    open spec fn view(&self) -> LnAddressConfirmationView {
        LnAddressConfirmationView {
            callback: self.callback@,
            min_sendable: self.min_sendable,
            max_sendable: self.max_sendable,
        }
    }
}

impl JsonRecord for LnAddressConfirmation {
    open spec fn encode(value: LnAddressConfirmationView) -> JsonValue {
        JsonValue::Object(
            seq![
                ("callback"@, JsonValue::Str(value.callback)),
                ("minSendable"@, JsonValue::Integer(value.min_sendable as int)),
                ("maxSendable"@, JsonValue::Integer(value.max_sendable as int)),
            ],
        )
    }

    open spec fn decode(doc: JsonValue) -> Option<LnAddressConfirmationView> {
        if str_field(doc, "callback"@) is Some
            && int_field(doc, "minSendable"@, 0, u64::MAX as int) is Some
            && int_field(doc, "maxSendable"@, 0, u64::MAX as int) is Some {
            Some(
                LnAddressConfirmationView {
                    callback: str_field(doc, "callback"@)->0,
                    min_sendable: int_field(doc, "minSendable"@, 0, u64::MAX as int)->0 as u64,
                    max_sendable: int_field(doc, "maxSendable"@, 0, u64::MAX as int)->0 as u64,
                },
            )
        } else {
            None
        }
    }

    fn to_json(&self) -> (doc: Json) {
        let mut members = ObjectBuilder::new();
        members.member("callback", Json::string(self.callback.as_str()));
        members.member("minSendable", Json::Unsigned(self.min_sendable));
        members.member("maxSendable", Json::Unsigned(self.max_sendable));
        let doc = members.finish();
        assert(doc@->Object_0 =~= Self::encode(self@)->Object_0);
        doc
    }

    fn from_json(doc: &Json) -> (value: Option<Self>) {
        let callback = match doc.read_string("callback") {
            Some(v) => v,
            None => return None,
        };
        let min_sendable = match doc.read_u64("minSendable") {
            Some(v) => v,
            None => return None,
        };
        let max_sendable = match doc.read_u64("maxSendable") {
            Some(v) => v,
            None => return None,
        };
        Some(LnAddressConfirmation { callback, min_sendable, max_sendable })
    }

    fn duplicate(&self) -> (copy: Self) {
        LnAddressConfirmation {
            callback: self.callback.clone(),
            min_sendable: self.min_sendable,
            max_sendable: self.max_sendable,
        }
    }

    proof fn lemma_decode_encode(value: LnAddressConfirmationView) {
        reveal_strlit("callback");
        reveal_strlit("minSendable");
        reveal_strlit("maxSendable");
        assert("callback"@.len() == 8);
        assert("minSendable"@.len() == 11);
        assert("maxSendable"@.len() == 11);
        assert("minSendable"@[1] != "maxSendable"@[1]);
        let doc = Self::encode(value);
        let members = doc->Object_0;
        lemma_lookup_finds(members, "callback"@, 0, 0);
        lemma_lookup_finds(members, "minSendable"@, 0, 1);
        lemma_lookup_finds(members, "maxSendable"@, 0, 2);
    }
}

impl LnAddressConfirmation {
    /// Reads the record from a JSON text.
    pub fn try_from(value: String) -> (record: Result<Self, ChannelError>)
        ensures
            match decode_text::<LnAddressConfirmation>(value@) {
                Some(v) => record matches Ok(x) && x@ == v,
                None => record matches Err(e) && e == ChannelError::SerializationError,
            },
    {
        from_text(value.as_str())
    }

    /// The record as one line of JSON.
    pub fn to_string(&self) -> (text: Result<String, ChannelError>)
        ensures
            match json_text(LnAddressConfirmation::encode(self@)) {
                Some(t) => text matches Ok(s) && s@ == t,
                None => text matches Err(e) && e == ChannelError::SerializationError,
            },
    {
        to_text(self)
    }
}

/// A lightning address, `user@domain`.
#[derive(Debug)]
pub struct LightningAddress(pub &'static str);

impl View for LightningAddress {
    type V = Seq<char>;

    open spec fn view(&self) -> Seq<char> {
        self.0@
    }
}

/// The address from which the receiver behind `address` says what it
/// accepts: `None` where the address has no `@`. The user is what stands
/// before the first `@`, the domain what stands after it.
pub open spec fn confirmation_url(address: Seq<char>) -> Option<Seq<char>> {
    match first_index(address, '@') {
        Some(at) => Some(
            "https://"@ + address.subrange(at + 1, address.len() as int) + "/.well-known/lnurlp/"@
                + address.subrange(0, at),
        ),
        None => None,
    }
}

/// The address from which a payable request over `millisatoshis` is
/// fetched: `None` where the amount is below what the receiver accepts.
pub open spec fn payment_url(confirmation: LnAddressConfirmationView, millisatoshis: u64) -> Option<
    Seq<char>,
> {
    if millisatoshis < confirmation.min_sendable {
        None
    } else {
        Some(confirmation.callback + "?amount="@ + decimal_text(millisatoshis as nat))
    }
}

impl LnAddressConfirmation {
    /// The address from which the receiver behind `address` says what it
    /// accepts. Fails with `InvalidAddress` exactly where the address has no
    /// `@`.
    pub fn url_for(address: &LightningAddress) -> (url: Result<String, LnAddressError>)
        ensures
            match confirmation_url(address@) {
                Some(u) => url matches Ok(s) && s@ == u,
                None => url matches Err(e) && e == LnAddressError::InvalidAddress,
            },
    {
        let text = address.0;
        match find_char(text, '@') {
            Some(at) => {
                let n = text.unicode_len();
                let user = text.substring_char(0, at);
                let domain = text.substring_char(at + 1, n);
                let mut url = concat("https://", domain);
                url.append("/.well-known/lnurlp/");
                url.append(user);
                Ok(url)
            },
            None => Err(LnAddressError::InvalidAddress),
        }
    }

    /// The address from which a payable request over `millisatoshis` is
    /// fetched. Fails with `AmountTooLow` exactly where the amount is below
    /// `min_sendable`.
    pub fn payment_url(&self, millisatoshis: u64) -> (url: Result<String, LnAddressError>)
        ensures
            match payment_url(self@, millisatoshis) {
                Some(u) => url matches Ok(s) && s@ == u,
                None => url matches Err(e) && e == LnAddressError::AmountTooLow,
            },
    {
        if millisatoshis < self.min_sendable {
            return Err(LnAddressError::AmountTooLow);
        }
        let mut url = concat(self.callback.as_str(), "?amount=");
        url.append(decimal(millisatoshis).as_str());
        Ok(url)
    }
}

impl LnAddressPaymentRequest {
    /// The payment hash of the request in standard base64. Fails with
    /// `InvalidInvoice` exactly where the request is no BOLT11 invoice.
    pub fn r_hash(&self) -> (hash: Result<String, LnAddressError>)
        ensures
            match bolt11_fields(self@.pr) {
                Some(fields) => hash matches Ok(s) && s@ == base64_standard(fields.payment_hash),
                None => hash matches Err(e) && e == LnAddressError::InvalidInvoice,
            },
    {
        match Bolt11Fields::parse(self.pr.as_str()) {
            Some(fields) => Ok(encode_standard(fields.payment_hash.as_slice())),
            None => Err(LnAddressError::InvalidInvoice),
        }
    }

    /// The payment hash of the request in URL-safe base64. Fails with
    /// `InvalidInvoice` exactly where the request is no BOLT11 invoice.
    pub fn r_hash_url_safe(&self) -> (hash: Result<String, LnAddressError>)
        ensures
            match bolt11_fields(self@.pr) {
                Some(fields) => hash matches Ok(s) && s@ == base64_url_safe(fields.payment_hash),
                None => hash matches Err(e) && e == LnAddressError::InvalidInvoice,
            },
    {
        match Bolt11Fields::parse(self.pr.as_str()) {
            Some(fields) => Ok(encode_url_safe(fields.payment_hash.as_slice())),
            None => Err(LnAddressError::InvalidInvoice),
        }
    }
}

/// Which reply a lookup waits for.
#[derive(Debug, Clone, Copy, PartialEq, Eq, Hash, Structural)]
pub enum LookupStage {
    /// What the receiver accepts.
    Confirmation,
    /// The payable request.
    Invoice,
    /// Nothing: the lookup is over.
    Finished,
}

/// What the transport does next for a lookup.
#[derive(Debug)]
pub enum LookupAction {
    /// Fetch this address and hand the reply back.
    Fetch(String),
    /// The lookup ended with this payable request.
    Done(LnAddressPaymentRequest),
    /// The lookup ended with this failure.
    Fail(LnAddressError),
}

/// Model of `LookupAction`.
pub enum LookupActionView {
    Fetch(Seq<char>),
    Done(LnAddressPaymentRequestView),
    Fail(LnAddressError),
}

impl View for LookupAction {
    type V = LookupActionView;

    open spec fn view(&self) -> LookupActionView {
        match self {
            LookupAction::Fetch(url) => LookupActionView::Fetch(url@),
            LookupAction::Done(request) => LookupActionView::Done(request@),
            LookupAction::Fail(error) => LookupActionView::Fail(*error),
        }
    }
}

/// Model of `LnAddressLookup`.
pub struct LnAddressLookupView {
    pub stage: LookupStage,
    pub millisatoshis: u64,
}

/// The first action of a lookup for `address`.
pub open spec fn first_action(address: Seq<char>) -> LookupActionView {
    match confirmation_url(address) {
        Some(url) => LookupActionView::Fetch(url),
        None => LookupActionView::Fail(LnAddressError::InvalidAddress),
    }
}

/// The action with which a lookup answers a reply.
pub open spec fn next_action(lookup: LnAddressLookupView, reply: Seq<char>) -> LookupActionView {
    match lookup.stage {
        LookupStage::Confirmation => match decode_text::<LnAddressConfirmation>(reply) {
            Some(confirmation) => match payment_url(confirmation, lookup.millisatoshis) {
                Some(url) => LookupActionView::Fetch(url),
                None => LookupActionView::Fail(LnAddressError::AmountTooLow),
            },
            None => LookupActionView::Fail(LnAddressError::Malformed),
        },
        LookupStage::Invoice => match decode_text::<LnAddressPaymentRequest>(reply) {
            Some(request) => LookupActionView::Done(request),
            None => LookupActionView::Fail(LnAddressError::Malformed),
        },
        LookupStage::Finished => LookupActionView::Fail(LnAddressError::NothingPending),
    }
}

/// The stage of a lookup after an action: one more reply is awaited after a
/// fetch, and none after anything else.
pub open spec fn next_stage(stage: LookupStage, action: LookupActionView) -> LookupStage {
    match (stage, action) {
        (LookupStage::Confirmation, LookupActionView::Fetch(_)) => LookupStage::Invoice,
        _ => LookupStage::Finished,
    }
}

/// The lookup of a payable request for a lightning address, between its
/// fetches.
#[derive(Debug)]
pub struct LnAddressLookup {
    stage: LookupStage,
    millisatoshis: u64,
}

impl View for LnAddressLookup {
    type V = LnAddressLookupView;

    closed spec fn view(&self) -> LnAddressLookupView {
        LnAddressLookupView { stage: self.stage, millisatoshis: self.millisatoshis }
    }
}

impl LnAddressLookup {
    pub fn stage(&self) -> (stage: LookupStage)
        ensures
            stage == self@.stage,
    {
        self.stage
    }

    /// Takes the reply to the last fetch and says what to do next.
    pub fn reply(&mut self, reply: String) -> (action: LookupAction)
        ensures
            action@ == next_action(old(self)@, reply@),
            final(self)@ == (LnAddressLookupView {
                stage: next_stage(old(self)@.stage, action@),
                ..old(self)@
            }),
    {
        let action = match self.stage {
            LookupStage::Confirmation => match from_text::<LnAddressConfirmation>(reply.as_str()) {
                Ok(confirmation) => match confirmation.payment_url(self.millisatoshis) {
                    Ok(url) => LookupAction::Fetch(url),
                    Err(e) => LookupAction::Fail(e),
                },
                Err(_) => LookupAction::Fail(LnAddressError::Malformed),
            },
            LookupStage::Invoice => match from_text::<LnAddressPaymentRequest>(reply.as_str()) {
                Ok(request) => LookupAction::Done(request),
                Err(_) => LookupAction::Fail(LnAddressError::Malformed),
            },
            LookupStage::Finished => LookupAction::Fail(LnAddressError::NothingPending),
        };
        self.stage = match (self.stage, &action) {
            (LookupStage::Confirmation, LookupAction::Fetch(_)) => LookupStage::Invoice,
            _ => LookupStage::Finished,
        };
        action
    }
}

impl LightningAddress {
    /// Starts the lookup of a payable request over `millisatoshis`: the
    /// first action, and the lookup that takes the replies.
    pub fn get_invoice(&self, millisatoshis: u64) -> (start: (LnAddressLookup, LookupAction))
        ensures
            start.1@ == first_action(self@),
            start.0@ == (LnAddressLookupView {
                stage: if start.1@ is Fetch {
                    LookupStage::Confirmation
                } else {
                    LookupStage::Finished
                },
                millisatoshis,
            }),
    {
        match LnAddressConfirmation::url_for(self) {
            Ok(url) => (
                LnAddressLookup { stage: LookupStage::Confirmation, millisatoshis },
                LookupAction::Fetch(url),
            ),
            Err(e) => (
                LnAddressLookup { stage: LookupStage::Finished, millisatoshis },
                LookupAction::Fail(e),
            ),
        }
    }
}

/// A lookup asks for at most two fetches: whatever the replies, it is over
/// after the second.
pub proof fn lemma_lookup_ends(lookup: LnAddressLookupView, first: Seq<char>, second: Seq<char>)
    ensures
        ({
            let after_first = next_stage(lookup.stage, next_action(lookup, first));
            let between = LnAddressLookupView { stage: after_first, ..lookup };
            next_stage(after_first, next_action(between, second)) == LookupStage::Finished
        }),
{
}

} // verus!
