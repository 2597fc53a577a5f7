//! Client-side logic for a Lightning node's REST and streaming interfaces:
//! JSON records, frame classification, liveness monitoring and the duplex
//! channel state machine, with machine-checked contracts.
//!
//! The crate computes and decides; it performs no I/O. A transport opens the
//! connection described by a `HandshakeRequest`, hands inbound frames to
//! `LndWebsocket::read`, writes what `LndWebsocket::next_frame` gives out,
//! and sends the `RestRequest`s that `LightningClient` builds.

pub mod bolt11;
pub mod codec;
pub mod error;
pub mod http;
pub mod json;
pub mod ln_address;
pub mod lnd;
pub mod text;

pub use error::{ChannelError, LnAddressError};
pub use http::{HttpHeader, HttpMethod, RestRequest};
pub use json::Json;
pub use ln_address::{
    LightningAddress, LnAddressConfirmation, LnAddressLookup, LnAddressPaymentRequest,
    LookupAction, LookupStage,
};
pub use lnd::models::hodl_invoice::{HodlState, LndHodlInvoice, LndHodlInvoiceState};
pub use lnd::models::info::LndInfo;
pub use lnd::models::invoice::{
    LndInvoice, LndInvoiceList, LndInvoiceState, LndNewAddress, LndNextAddressRequest,
    LndPaymentInvoice,
};
pub use lnd::models::invoice_request::{LndInvoiceRequest, LndInvoiceRequestBody};
pub use lnd::models::lnd_payment::{InvoicePaymentState, LndPaymentRequest, LndPaymentResponse};
pub use lnd::models::onchain::{
    AccountWithAddresses, LndAddressProperty, LndListAddressesResponse, OnchainAddressType,
};
pub use lnd::models::{JsonRecord, LndError, LndErrorDetail, LndResponse};
pub use lnd::rest_client::LightningClient;
pub use lnd::websocket::{
    ChannelState, FrameKind, HandshakeRequest, Inbound, LndWebsocket, LndWebsocketMessage,
    LndWebsocketReader, LndWebsocketWriter, ReadStep,
};
