//! The plain request/response interface of the node: which request each
//! operation sends, and what is made of the reply. Sending is left to the
//! transport.

use crate::codec::{base64_url_safe, encode_url_safe};
use crate::error::ChannelError;
use crate::http::{
    get_request, header_views, plain_header, post_request, secret_header, HttpHeader,
    HttpHeaderView, RestRequest,
};
use crate::json::{json_text, Json, JsonValue, ObjectBuilder};
use crate::lnd::models::invoice::{LndInvoice, LndInvoiceList, LndNextAddressRequest};
use crate::lnd::models::invoice_request::LndInvoiceRequestBody;
use crate::lnd::models::{decode_text, from_text, to_text, views, JsonRecord};
use crate::lnd::websocket::{
    handshake, handshake_ok, handshake_request, sample_key, HandshakeRequest,
};
use crate::text::{concat, hex_bytes, hex_decode, hex_encode, hex_text, is_hex};
use vstd::pervasive::unreached;
use vstd::prelude::*;
use vstd::string::*;

verus! {

/// The address of an operation on the request/response interface.
pub open spec fn endpoint(host: Seq<char>, path: Seq<char>) -> Seq<char> {
    "https://"@ + host + path
}

/// The address of a stream.
pub open spec fn stream(host: Seq<char>, path: Seq<char>) -> Seq<char> {
    "wss://"@ + host + path
}

/// The headers that go with every request of a client that holds the
/// hex-encoded credential `macaroon`.
pub open spec fn default_headers(macaroon: Seq<char>) -> Seq<HttpHeaderView> {
    seq![
        secret_header("Grpc-Metadata-macaroon"@, macaroon),
        plain_header("Accept"@, "application/json"@),
        plain_header("Content-Type"@, "application/json"@),
    ]
}

/// The body that asks for a hold invoice over `amount` locked to
/// `payment_hash`.
pub open spec fn hodl_invoice_body(payment_hash: Seq<char>, amount: u64) -> JsonValue {
    JsonValue::Object(
        seq![
            ("hash"@, JsonValue::Str(payment_hash)),
            ("value"@, JsonValue::Integer(amount as int)),
        ],
    )
}

/// The body that settles a held payment with the preimage `preimage`, given
/// in hexadecimal.
pub open spec fn settle_body(preimage: Seq<char>) -> JsonValue {
    JsonValue::Object(seq![("preimage"@, JsonValue::Str(base64_url_safe(hex_bytes(preimage))))])
}

/// The body that cancels the hold invoice locked to `payment_hash`.
pub open spec fn cancel_body(payment_hash: Seq<char>) -> JsonValue {
    JsonValue::Object(seq![("payment_hash"@, JsonValue::Str(payment_hash))])
}

/// The request that posts `body` to `url`, where the body can be written.
pub open spec fn post_of(url: Seq<char>, body: Option<Seq<char>>) -> Result<
    crate::http::RestRequestView,
    ChannelError,
> {
    match body {
        Some(text) => Ok(post_request(url, text)),
        None => Err(ChannelError::SerializationError),
    }
}

/// Whether a request is the one that a specification gives, or fails as it
/// says.
pub open spec fn request_is(
    request: Result<RestRequest, ChannelError>,
    expected: Result<crate::http::RestRequestView, ChannelError>,
) -> bool {
    match expected {
        Ok(view) => request matches Ok(r) && r@ == view,
        Err(error) => request matches Err(e) && e == error,
    }
}

/// Model of `LightningClient`.
pub struct LightningClientView {
    pub url: Seq<char>,
    pub macaroon: Seq<char>,
    pub headers: Seq<HttpHeaderView>,
    pub accept_invalid_certs: bool,
}

/// A client of one node: the host, the credential in hexadecimal, the
/// headers that go with every request, and the trust policy.
#[derive(Debug, Clone)]
pub struct LightningClient {
    url: String,
    macaroon: String,
    headers: Vec<HttpHeader>,
    accept_invalid_certs: bool,
}

impl View for LightningClient {
    type V = LightningClientView;

    closed spec fn view(&self) -> LightningClientView {
        LightningClientView {
            url: self.url@,
            macaroon: self.macaroon@,
            headers: header_views(self.headers@),
            accept_invalid_certs: self.accept_invalid_certs,
        }
    }
}

impl LightningClient {
    /// A client that talks to a local node without a credential and without
    /// default headers.
    pub fn dud_server() -> (client: Self)
        ensures
            client@ == (LightningClientView {
                url: "localhost:10009"@,
                macaroon: Seq::empty(),
                headers: Seq::empty(),
                accept_invalid_certs: true,
            }),
    {
        let client = LightningClient {
            url: String::from_str("localhost:10009"),
            macaroon: String::new(),
            headers: Vec::new(),
            accept_invalid_certs: true,
        };
        assert(client@.headers =~= Seq::empty());
        client
    }

    /// A client of the node at `url` that authenticates with `credential`.
    /// It accepts a certificate that does not validate, until
    /// `set_accept_invalid_certs` says otherwise.
    pub fn new(url: &str, credential: &Vec<u8>) -> (client: Self)
        ensures
            client@ == (LightningClientView {
                url: url@,
                macaroon: hex_text(credential@),
                headers: default_headers(hex_text(credential@)),
                accept_invalid_certs: true,
            }),
    {
        let macaroon = Self::macaroon(credential);
        let mut headers: Vec<HttpHeader> = Vec::new();
        headers.push(HttpHeader::secret("Grpc-Metadata-macaroon", macaroon.as_str()));
        headers.push(HttpHeader::plain("Accept", "application/json"));
        headers.push(HttpHeader::plain("Content-Type", "application/json"));
        let client = LightningClient {
            url: String::from_str(url),
            macaroon,
            headers,
            accept_invalid_certs: true,
        };
        assert(client@.headers =~= default_headers(hex_text(credential@)));
        client
    }

    /// The credential as it travels in a header: in lower-case hexadecimal.
    pub fn macaroon(credential: &Vec<u8>) -> (text: String)
        ensures
            text@ == hex_text(credential@),
    {
        hex_encode(credential)
    }

    /// Sets whether a certificate that does not validate is accepted.
    pub fn set_accept_invalid_certs(&mut self, accept: bool)
        ensures
            final(self)@ == (LightningClientView { accept_invalid_certs: accept, ..old(self)@ }),
    {
        self.accept_invalid_certs = accept;
    }

    pub fn accept_invalid_certs(&self) -> (accept: bool)
        ensures
            accept == self@.accept_invalid_certs,
    {
        self.accept_invalid_certs
    }

    pub fn url(&self) -> (url: String)
        ensures
            url@ == self@.url,
    {
        self.url.clone()
    }

    /// The headers that go with every request.
    pub fn headers(&self) -> (headers: &Vec<HttpHeader>)
        ensures
            header_views(headers@) == self@.headers,
    {
        &self.headers
    }

    fn endpoint(&self, path: &str) -> (url: String)
        ensures
            url@ == endpoint(self@.url, path@),
    {
        let mut url = concat("https://", self.url.as_str());
        url.append(path);
        url
    }

    fn stream(&self, path: &str) -> (url: String)
        ensures
            url@ == stream(self@.url, path@),
    {
        let mut url = concat("wss://", self.url.as_str());
        url.append(path);
        url
    }

    fn post(url: String, body: &Json) -> (request: Result<RestRequest, ChannelError>)
        ensures
            request_is(request, post_of(url@, json_text(body@))),
    {
        match body.to_text() {
            Some(text) => Ok(RestRequest::post(url, text)),
            None => Err(ChannelError::SerializationError),
        }
    }

    /// Asks the node to describe itself. The reply is an `LndInfo`.
    pub fn get_info(&self) -> (request: RestRequest)
        ensures
            request@ == get_request(endpoint(self@.url, "/v1/getinfo"@)),
    {
        RestRequest::get(self.endpoint("/v1/getinfo"))
    }

    /// Asks for the balance of the channels. The reply is not read.
    pub fn channel_balance(&self) -> (request: RestRequest)
        ensures
            request@ == get_request(endpoint(self@.url, "/v1/balance/channels"@)),
    {
        RestRequest::get(self.endpoint("/v1/balance/channels"))
    }

    /// Asks for a new invoice. The reply is an `LndPaymentInvoice`.
    pub fn get_invoice(&self, form: LndInvoiceRequestBody) -> (request: Result<
        RestRequest,
        ChannelError,
    >)
        ensures
            request_is(
                request,
                post_of(
                    endpoint(self@.url, "/v1/invoices"@),
                    json_text(LndInvoiceRequestBody::encode(form@)),
                ),
            ),
    {
        match form.to_string() {
            Ok(body) => Ok(RestRequest::post(self.endpoint("/v1/invoices"), body)),
            Err(e) => Err(e),
        }
    }

    /// Asks for the node's invoices. `list_invoices_reply` reads the reply.
    pub fn list_invoices(&self) -> (request: RestRequest)
        ensures
            request@ == get_request(endpoint(self@.url, "/v1/invoices"@)),
    {
        RestRequest::get(self.endpoint("/v1/invoices"))
    }

    /// The invoices in the reply to `list_invoices`.
    pub fn list_invoices_reply(reply: &str) -> (invoices: Result<Vec<LndInvoice>, ChannelError>)
        ensures
            match decode_text::<LndInvoiceList>(reply@) {
                Some(list) => invoices matches Ok(v) && views(v@) == list.invoices,
                None => invoices matches Err(e) && e == ChannelError::SerializationError,
            },
    {
        match from_text::<LndInvoiceList>(reply) {
            Ok(list) => Ok(list.invoices),
            Err(e) => Err(e),
        }
    }

    /// Asks for the next on-chain address. The reply is an `LndNewAddress`.
    pub fn new_onchain_address(&self, request: LndNextAddressRequest) -> (sent: Result<
        RestRequest,
        ChannelError,
    >)
        ensures
            request_is(
                sent,
                post_of(
                    endpoint(self@.url, "/v2/wallet/address/next"@),
                    json_text(LndNextAddressRequest::encode(request@)),
                ),
            ),
    {
        match to_text(&request) {
            Ok(body) => Ok(RestRequest::post(self.endpoint("/v2/wallet/address/next"), body)),
            Err(e) => Err(e),
        }
    }

    /// Asks for the wallet's addresses. The reply is an
    /// `LndListAddressesResponse`, in which `find_addresses` picks an
    /// account.
    pub fn list_onchain_addresses(&self) -> (request: RestRequest)
        ensures
            request@ == get_request(endpoint(self@.url, "/v2/wallet/addresses"@)),
    {
        RestRequest::get(self.endpoint("/v2/wallet/addresses"))
    }

    /// The upgrade request for the stream on which payments are sent and
    /// followed.
    pub fn invoice_channel(&self) -> (upgrade: Result<HandshakeRequest, ChannelError>)
        ensures
            match upgrade {
                Ok(r) => handshake_ok(self@.url, self@.macaroon, sample_key()) && r@
                    == handshake_request(
                    self@.url,
                    self@.macaroon,
                    stream(self@.url, "/v2/router/send?method=POST"@),
                    sample_key(),
                    self@.accept_invalid_certs,
                ),
                Err(e) => !handshake_ok(self@.url, self@.macaroon, sample_key()) && e
                    == ChannelError::HandshakeError,
            },
    {
        let path = self.stream("/v2/router/send?method=POST");
        handshake(
            self.url.as_str(),
            self.macaroon.as_str(),
            path.as_str(),
            "dGhlIHNhbXBsZSBub25jZQ2342qdfsdgfsdfg",
            self.accept_invalid_certs,
        )
    }

    /// Asks for the state of the invoice with the given payment hash, in
    /// URL-safe base64. The reply is an `LndHodlInvoiceState`.
    pub fn lookup_invoice(&self, r_hash_url_safe: String) -> (request: RestRequest)
        ensures
            request@ == get_request(
                endpoint(self@.url, "/v2/invoices/lookup?payment_hash="@ + r_hash_url_safe@),
            ),
    {
        let mut url = self.endpoint("/v2/invoices/lookup?payment_hash=");
        url.append(r_hash_url_safe.as_str());
        assert(url@ =~= endpoint(
            self@.url,
            "/v2/invoices/lookup?payment_hash="@ + r_hash_url_safe@,
        ));
        RestRequest::get(url)
    }

    /// The upgrade request for the stream of updates on the invoice with the
    /// given payment hash, in URL-safe base64.
    pub fn subscribe_to_invoice(&self, r_hash_url_safe: String) -> (upgrade: Result<
        HandshakeRequest,
        ChannelError,
    >)
        ensures
            match upgrade {
                Ok(r) => handshake_ok(self@.url, self@.macaroon, sample_key()) && r@
                    == handshake_request(
                    self@.url,
                    self@.macaroon,
                    stream(self@.url, "/v2/invoices/subscribe/"@ + r_hash_url_safe@),
                    sample_key(),
                    self@.accept_invalid_certs,
                ),
                Err(e) => !handshake_ok(self@.url, self@.macaroon, sample_key()) && e
                    == ChannelError::HandshakeError,
            },
    {
        let mut path = self.stream("/v2/invoices/subscribe/");
        path.append(r_hash_url_safe.as_str());
        assert(path@ =~= stream(self@.url, "/v2/invoices/subscribe/"@ + r_hash_url_safe@));
        handshake(
            self.url.as_str(),
            self.macaroon.as_str(),
            path.as_str(),
            "dGhlIHNhbXBsZSBub25jZQ2342qdfsdgfsdfg",
            self.accept_invalid_certs,
        )
    }

    /// Asks for a hold invoice over `amount` satoshis locked to
    /// `payment_hash`. The reply is an `LndHodlInvoice`.
    pub fn get_hodl_invoice(&self, payment_hash: String, amount: u64) -> (request: Result<
        RestRequest,
        ChannelError,
    >)
        ensures
            request_is(
                request,
                post_of(
                    endpoint(self@.url, "/v2/invoices/hodl"@),
                    json_text(hodl_invoice_body(payment_hash@, amount)),
                ),
            ),
    {
        let mut members = ObjectBuilder::new();
        members.member("hash", Json::string(payment_hash.as_str()));
        members.member("value", Json::Unsigned(amount));
        let body = members.finish();
        assert(body@->Object_0 =~= hodl_invoice_body(payment_hash@, amount)->Object_0);
        Self::post(self.endpoint("/v2/invoices/hodl"), &body)
    }

    /// Settles a held payment with its preimage, given in hexadecimal. The
    /// reply is not read.
    pub fn settle_htlc(&self, preimage: String) -> (request: Result<RestRequest, ChannelError>)
        requires
            is_hex(preimage@),
        ensures
            request_is(
                request,
                post_of(
                    endpoint(self@.url, "/v2/invoices/settle"@),
                    json_text(settle_body(preimage@)),
                ),
            ),
    {
        let bytes = match hex_decode(preimage.as_str()) {
            Some(bytes) => bytes,
            None => unreached(),
        };
        let encoded = encode_url_safe(bytes.as_slice());
        let mut members = ObjectBuilder::new();
        members.member("preimage", Json::string(encoded.as_str()));
        let body = members.finish();
        assert(body@->Object_0 =~= settle_body(preimage@)->Object_0);
        Self::post(self.endpoint("/v2/invoices/settle"), &body)
    }

    /// Cancels the hold invoice locked to `payment_hash`. The reply is not
    /// read.
    pub fn cancel_htlc(&self, payment_hash: String) -> (request: Result<RestRequest, ChannelError>)
        ensures
            request_is(
                request,
                post_of(
                    endpoint(self@.url, "/v2/invoices/cancel"@),
                    json_text(cancel_body(payment_hash@)),
                ),
            ),
    {
        let mut members = ObjectBuilder::new();
        members.member("payment_hash", Json::string(payment_hash.as_str()));
        let body = members.finish();
        assert(body@->Object_0 =~= cancel_body(payment_hash@)->Object_0);
        Self::post(self.endpoint("/v2/invoices/cancel"), &body)
    }
}

} // verus!
