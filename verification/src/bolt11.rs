//! BOLT11 payment requests, as the `lightning_invoice` crate reads them.

use vstd::prelude::*;

verus! {

/// What the client reads from a payment request.
#[derive(Debug, Clone, PartialEq, Eq)]
pub struct Bolt11Fields {
    /// The hash that the payment is locked to.
    pub payment_hash: Vec<u8>,
    /// The amount in millisatoshis, where the request names one.
    pub amount_msat: Option<u64>,
}

/// Model of `Bolt11Fields`.
pub struct Bolt11FieldsView {
    pub payment_hash: Seq<u8>,
    pub amount_msat: Option<u64>,
}

impl View for Bolt11Fields {
    type V = Bolt11FieldsView;

    open spec fn view(&self) -> Bolt11FieldsView {
        Bolt11FieldsView { payment_hash: self.payment_hash@, amount_msat: self.amount_msat }
    }
}

/// The view of optional fields.
pub open spec fn fields_opt_view(fields: Option<Bolt11Fields>) -> Option<Bolt11FieldsView> {
    match fields {
        Some(f) => Some(f@),
        None => None,
    }
}

/// What `Bolt11Invoice::from_str` makes of a text, reduced to the payment
/// hash and the amount: `None` where it reports an error.
pub uninterp spec fn bolt11_fields(text: Seq<char>) -> Option<Bolt11FieldsView>;

/// `Bolt11Invoice::from_str`, followed by `Bolt11Invoice::payment_hash` and
/// `Bolt11Invoice::amount_milli_satoshis` on the invoice. The parse error is
/// dropped. The contract only gives the outcome its name.
#[verifier::external_body]
pub(crate) fn read_bolt11(text: &str) -> (fields: Option<Bolt11Fields>)
    ensures
        fields_opt_view(fields) == bolt11_fields(text@),
{
    match text.parse::<lightning_invoice::Bolt11Invoice>() {
        Ok(invoice) => {
            let hash: &[u8] = invoice.payment_hash().as_ref();
            let amount_msat = invoice.amount_milli_satoshis();
            Some(Bolt11Fields { payment_hash: hash.to_vec(), amount_msat })
        },
        Err(_) => None,
    }
}

impl Bolt11Fields {
    /// Reads a payment request.
    pub fn parse(text: &str) -> (fields: Option<Bolt11Fields>)
        ensures
            fields_opt_view(fields) == bolt11_fields(text@),
    {
        read_bolt11(text)
    }
}

} // verus!
