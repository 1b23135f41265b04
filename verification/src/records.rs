//! The upstream wire records this layer consumes, modelled as plain
//! values: a payment with its optional tagged mechanism variant, the
//! pagination cursor, and the two response envelopes. The upstream API is
//! trusted to have validated them; this layer only re-shapes what it
//! receives.

use vstd::prelude::*;

verus! {

/// A cursor into a paginated listing: an opaque server-issued token plus
/// a numeric index.
pub struct PageToken {
    pub token: String,
    pub index: u64,
}

/// Fee limits agreed with a liquidity provider for a just-in-time channel
/// open, carried through unchanged.
pub struct LspFeeLimits {
    pub max_total_opening_fee_msat: Option<u64>,
    pub max_proportional_opening_fee_ppm_msat: Option<u64>,
}

/// An on-chain payment; it carries none of the invoice-related optional
/// fields and passes through unchanged.
pub struct Onchain {}

/// A BOLT11 invoice payment.
pub struct Bolt11 {
    pub hash: String,
    pub preimage: Option<String>,
    pub secret: Option<Vec<u8>>,
}

/// A BOLT11 payment received over a just-in-time channel open.
pub struct Bolt11Jit {
    pub hash: String,
    pub preimage: Option<String>,
    pub secret: Option<Vec<u8>>,
    pub lsp_fee_limits: Option<LspFeeLimits>,
    pub counterparty_skimmed_fee_msat: Option<u64>,
}

/// A payment against a BOLT12 offer.
pub struct Bolt12Offer {
    pub hash: Option<String>,
    pub preimage: Option<String>,
    pub secret: Option<Vec<u8>>,
    pub offer_id: String,
    pub payer_note: Option<String>,
    pub quantity: Option<u64>,
}

/// A payment against a BOLT12 refund; same shape as an offer payment but
/// without the offer identifier.
pub struct Bolt12Refund {
    pub hash: Option<String>,
    pub preimage: Option<String>,
    pub secret: Option<Vec<u8>>,
    pub payer_note: Option<String>,
    pub quantity: Option<u64>,
}

/// A spontaneous payment, made without an invoice.
pub struct Spontaneous {
    pub hash: String,
    pub preimage: Option<String>,
}

/// The six mutually exclusive payment mechanisms.
pub enum Kind {
    Onchain(Onchain),
    Bolt11(Bolt11),
    Bolt11Jit(Bolt11Jit),
    Bolt12Offer(Bolt12Offer),
    Bolt12Refund(Bolt12Refund),
    Spontaneous(Spontaneous),
}

/// The tagged payment-mechanism field as it arrives on the wire: the tag
/// itself is optional, so a record may carry the field with no variant
/// set.
pub struct PaymentKind {
    pub kind: Option<Kind>,
}

/// A payment record as the node reports it. Direction and status arrive
/// as open enumeration codes.
pub struct Payment {
    pub id: String,
    pub kind: Option<PaymentKind>,
    pub amount_msat: Option<u64>,
    pub fee_paid_msat: Option<u64>,
    pub direction: i32,
    pub status: i32,
    pub latest_update_timestamp: u64,
}

/// A page of payments plus the cursor for the next page, if any.
pub struct ListPaymentsResponse {
    pub payments: Vec<Payment>,
    pub next_page_token: Option<PageToken>,
}

/// The answer to a payment-details query: zero or one payment.
pub struct GetPaymentDetailsResponse {
    pub payment: Option<Payment>,
}

/// The canonical textual name of a direction code. An unrecognized code
/// falls back to the default direction, as the wire schema prescribes for
/// open enumerations.
pub open spec fn direction_name(code: i32) -> Seq<char> {
    if code == 1 {
        "OUTBOUND"@
    } else {
        "INBOUND"@
    }
}

/// The canonical textual name of a status code. An unrecognized code
/// falls back to the default status, as the wire schema prescribes for
/// open enumerations.
pub open spec fn status_name(code: i32) -> Seq<char> {
    if code == 1 {
        "SUCCEEDED"@
    } else if code == 2 {
        "FAILED"@
    } else {
        "PENDING"@
    }
}

/// Resolves a direction code to its canonical textual name.
pub fn direction_str(code: i32) -> (s: String)
    ensures
        s@ == direction_name(code),
{
    if code == 1 {
        String::from_str("OUTBOUND")
    } else {
        String::from_str("INBOUND")
    }
}

/// Resolves a status code to its canonical textual name.
pub fn status_str(code: i32) -> (s: String)
    ensures
        s@ == status_name(code),
{
    if code == 1 {
        String::from_str("SUCCEEDED")
    } else if code == 2 {
        String::from_str("FAILED")
    } else {
        String::from_str("PENDING")
    }
}

} // verus!
