//! The display-oriented records handed to the text output, and the
//! normalizer that produces them: enumeration codes become their textual
//! names, secret byte fields become lowercase hex, the pagination cursor
//! becomes a single `token:index` string, and absent optional data stays
//! absent.

use crate::hex::{bytes_to_lower_hex, hex_of};
use crate::records::{
    Bolt11, Bolt11Jit, Bolt12Offer, Bolt12Refund, GetPaymentDetailsResponse, Kind,
    ListPaymentsResponse, LspFeeLimits, Onchain, PageToken, Payment, PaymentKind, Spontaneous,
    direction_name, direction_str, status_name, status_str,
};
use crate::text::{dec_of, u64_to_dec};
use vstd::prelude::*;

verus! {

/// A byte field rendered for display: its lowercase hex text.
pub struct CliBytes(pub String);

/// Display form of a BOLT11 payment.
pub struct CliBolt11 {
    pub hash: String,
    pub preimage: Option<String>,
    pub secret: Option<CliBytes>,
}

/// Display form of a BOLT11 payment over a just-in-time channel open.
pub struct CliBolt11Jit {
    pub hash: String,
    pub preimage: Option<String>,
    pub secret: Option<CliBytes>,
    pub lsp_fee_limits: Option<LspFeeLimits>,
    pub counterparty_skimmed_fee_msat: Option<u64>,
}

/// Display form of a BOLT12 offer payment.
pub struct CliBolt12Offer {
    pub hash: Option<String>,
    pub preimage: Option<String>,
    pub secret: Option<CliBytes>,
    pub offer_id: String,
    pub payer_note: Option<String>,
    pub quantity: Option<u64>,
}

/// Display form of a BOLT12 refund payment.
pub struct CliBolt12Refund {
    pub hash: Option<String>,
    pub preimage: Option<String>,
    pub secret: Option<CliBytes>,
    pub payer_note: Option<String>,
    pub quantity: Option<u64>,
}

/// Display form of a spontaneous payment.
pub struct CliSpontaneous {
    pub hash: String,
    pub preimage: Option<String>,
}

/// Display form of the payment mechanism, one variant per kind.
pub enum CliPaymentKind {
    Onchain(Onchain),
    Bolt11(CliBolt11),
    Bolt11Jit(CliBolt11Jit),
    Bolt12Offer(CliBolt12Offer),
    Bolt12Refund(CliBolt12Refund),
    Spontaneous(CliSpontaneous),
}

/// Display form of a payment: codes resolved to names, mechanism variant
/// normalized, absent fields kept absent.
pub struct CliPayment {
    pub id: String,
    pub kind: Option<CliPaymentKind>,
    pub amount_msat: Option<u64>,
    pub fee_paid_msat: Option<u64>,
    pub direction: String,
    pub status: String,
    pub latest_update_timestamp: u64,
}

/// A paginated listing: the items in server order, and the cursor for the
/// next page as a single `token:index` string, absent when there is none.
pub struct CliPaginatedResponse<T> {
    pub list: Vec<T>,
    pub next_page_token: Option<String>,
}

pub type CliListPaymentsResponse = CliPaginatedResponse<CliPayment>;

/// The answer to a payment-details query, its payment field absent when
/// no payment was found.
pub struct CliGetPaymentDetailsResponse {
    pub payment: Option<CliPayment>,
}

/// The single `token:index` text of a page cursor.
pub open spec fn page_token_text(t: PageToken) -> Seq<char> {
    t.token@ + seq![':'] + dec_of(t.index as nat)
}

/// An optional secret byte field normalized: absent stays absent, present
/// bytes become their hex text.
pub open spec fn secret_norm_ok(s: Option<Vec<u8>>, c: Option<CliBytes>) -> bool {
    match s {
        Option::None => c is None,
        Option::Some(bs) => c matches Some(cb) && cb.0@ == hex_of(bs@),
    }
}

/// BOLT11 normalization: hash and preimage carried through unchanged, the
/// secret hex-encoded when present.
pub open spec fn bolt11_norm_ok(b: Bolt11, c: CliBolt11) -> bool {
    &&& c.hash == b.hash
    &&& c.preimage == b.preimage
    &&& secret_norm_ok(b.secret, c.secret)
}

/// BOLT11-JIT normalization: as BOLT11, with the fee-limit policy and the
/// skimmed fee carried through structurally unchanged.
pub open spec fn bolt11_jit_norm_ok(b: Bolt11Jit, c: CliBolt11Jit) -> bool {
    &&& c.hash == b.hash
    &&& c.preimage == b.preimage
    &&& secret_norm_ok(b.secret, c.secret)
    &&& c.lsp_fee_limits == b.lsp_fee_limits
    &&& c.counterparty_skimmed_fee_msat == b.counterparty_skimmed_fee_msat
}

/// BOLT12-offer normalization: optional hash and preimage carried through,
/// secret hex-encoded when present, offer identifier, payer note and
/// quantity unchanged.
pub open spec fn bolt12_offer_norm_ok(b: Bolt12Offer, c: CliBolt12Offer) -> bool {
    &&& c.hash == b.hash
    &&& c.preimage == b.preimage
    &&& secret_norm_ok(b.secret, c.secret)
    &&& c.offer_id == b.offer_id
    &&& c.payer_note == b.payer_note
    &&& c.quantity == b.quantity
}

/// BOLT12-refund normalization: the offer shape without the offer
/// identifier.
pub open spec fn bolt12_refund_norm_ok(b: Bolt12Refund, c: CliBolt12Refund) -> bool {
    &&& c.hash == b.hash
    &&& c.preimage == b.preimage
    &&& secret_norm_ok(b.secret, c.secret)
    &&& c.payer_note == b.payer_note
    &&& c.quantity == b.quantity
}

/// Spontaneous-payment normalization: hash and preimage only; this kind
/// has no secret field.
pub open spec fn spontaneous_norm_ok(b: Spontaneous, c: CliSpontaneous) -> bool {
    &&& c.hash == b.hash
    &&& c.preimage == b.preimage
}

/// Kind normalization: each kind maps to its own display variant, with
/// exactly the fields defined for that kind and no others.
pub open spec fn kind_norm_ok(k: Kind, c: CliPaymentKind) -> bool {
    match k {
        Kind::Onchain(o) => c matches CliPaymentKind::Onchain(co) && co == o,
        Kind::Bolt11(b) => c matches CliPaymentKind::Bolt11(cb) && bolt11_norm_ok(b, cb),
        Kind::Bolt11Jit(b) => c matches CliPaymentKind::Bolt11Jit(cb) && bolt11_jit_norm_ok(b, cb),
        Kind::Bolt12Offer(b) => c matches CliPaymentKind::Bolt12Offer(cb) && bolt12_offer_norm_ok(
            b,
            cb,
        ),
        Kind::Bolt12Refund(b) => c matches CliPaymentKind::Bolt12Refund(cb)
            && bolt12_refund_norm_ok(b, cb),
        Kind::Spontaneous(b) => c matches CliPaymentKind::Spontaneous(cb) && spontaneous_norm_ok(
            b,
            cb,
        ),
    }
}

/// The optional tagged mechanism field normalized: an absent field, and
/// equally a field whose tag is unset, degrade to complete absence.
pub open spec fn payment_kind_norm_ok(k: Option<PaymentKind>, c: Option<CliPaymentKind>) -> bool {
    match k {
        Option::None => c is None,
        Option::Some(pk) => match pk.kind {
            Option::None => c is None,
            Option::Some(inner) => c matches Some(ck) && kind_norm_ok(inner, ck),
        },
    }
}

/// Whole-payment normalization: identity, amounts and timestamp carried
/// through unchanged, codes resolved to names, mechanism normalized.
pub open spec fn payment_norm_ok(p: Payment, c: CliPayment) -> bool {
    &&& c.id == p.id
    &&& payment_kind_norm_ok(p.kind, c.kind)
    &&& c.amount_msat == p.amount_msat
    &&& c.fee_paid_msat == p.fee_paid_msat
    &&& c.direction@ == direction_name(p.direction)
    &&& c.status@ == status_name(p.status)
    &&& c.latest_update_timestamp == p.latest_update_timestamp
}

/// Formats a page cursor as the literal `token:index` text, with nothing
/// added around it.
pub fn format_page_token(token: PageToken) -> (r: String)
    ensures
        r@ == page_token_text(token),
{
    let idx: u64 = token.index;
    let mut out = token.token;
    out.push(':');
    let d = u64_to_dec(idx);
    out.append(d.as_str());
    proof {
        assert(out@ =~= page_token_text(token));
    }
    out
}

impl CliBytes {
    /// Encodes an opaque byte field as lowercase hex.
    pub fn from(bytes: Vec<u8>) -> (r: CliBytes)
        ensures
            r.0@ == hex_of(bytes@),
    {
        CliBytes(bytes_to_lower_hex(&bytes))
    }
}

fn secret_to_display(secret: Option<Vec<u8>>) -> (r: Option<CliBytes>)
    ensures
        secret_norm_ok(secret, r),
{
    match secret {
        Option::Some(bs) => Option::Some(CliBytes::from(bs)),
        Option::None => Option::None,
    }
}

impl CliBolt11 {
    pub fn from(bolt11: Bolt11) -> (r: CliBolt11)
        ensures
            bolt11_norm_ok(bolt11, r),
    {
        let Bolt11 { hash, preimage, secret } = bolt11;
        CliBolt11 { hash, preimage, secret: secret_to_display(secret) }
    }
}

impl CliBolt11Jit {
    pub fn from(jit: Bolt11Jit) -> (r: CliBolt11Jit)
        ensures
            bolt11_jit_norm_ok(jit, r),
    {
        let Bolt11Jit { hash, preimage, secret, lsp_fee_limits, counterparty_skimmed_fee_msat } =
            jit;
        CliBolt11Jit {
            hash,
            preimage,
            secret: secret_to_display(secret),
            lsp_fee_limits,
            counterparty_skimmed_fee_msat,
        }
    }
}

impl CliBolt12Offer {
    pub fn from(offer: Bolt12Offer) -> (r: CliBolt12Offer)
        ensures
            bolt12_offer_norm_ok(offer, r),
    {
        let Bolt12Offer { hash, preimage, secret, offer_id, payer_note, quantity } = offer;
        CliBolt12Offer {
            hash,
            preimage,
            secret: secret_to_display(secret),
            offer_id,
            payer_note,
            quantity,
        }
    }
}

impl CliBolt12Refund {
    pub fn from(refund: Bolt12Refund) -> (r: CliBolt12Refund)
        ensures
            bolt12_refund_norm_ok(refund, r),
    {
        let Bolt12Refund { hash, preimage, secret, payer_note, quantity } = refund;
        CliBolt12Refund { hash, preimage, secret: secret_to_display(secret), payer_note, quantity }
    }
}

impl CliSpontaneous {
    pub fn from(spontaneous: Spontaneous) -> (r: CliSpontaneous)
        ensures
            spontaneous_norm_ok(spontaneous, r),
    {
        let Spontaneous { hash, preimage } = spontaneous;
        CliSpontaneous { hash, preimage }
    }
}

impl CliPaymentKind {
    /// Normalizes the optional tagged mechanism field. An absent field, or
    /// one whose tag is unset, yields complete absence rather than a
    /// failure.
    pub fn from_payment_kind(kind: Option<PaymentKind>) -> (r: Option<CliPaymentKind>)
        ensures
            payment_kind_norm_ok(kind, r),
    {
        match kind {
            Option::None => Option::None,
            Option::Some(k) => match k.kind {
                Option::None => Option::None,
                Option::Some(inner) => Option::Some(
                    match inner {
                        Kind::Onchain(o) => CliPaymentKind::Onchain(o),
                        Kind::Bolt11(b) => CliPaymentKind::Bolt11(CliBolt11::from(b)),
                        Kind::Bolt11Jit(j) => CliPaymentKind::Bolt11Jit(CliBolt11Jit::from(j)),
                        Kind::Bolt12Offer(o) => CliPaymentKind::Bolt12Offer(
                            CliBolt12Offer::from(o),
                        ),
                        Kind::Bolt12Refund(r) => CliPaymentKind::Bolt12Refund(
                            CliBolt12Refund::from(r),
                        ),
                        Kind::Spontaneous(s) => CliPaymentKind::Spontaneous(
                            CliSpontaneous::from(s),
                        ),
                    },
                ),
            },
        }
    }
}

impl CliPayment {
    /// Normalizes one payment record.
    pub fn from(payment: Payment) -> (r: CliPayment)
        ensures
            payment_norm_ok(payment, r),
    {
        let direction = direction_str(payment.direction);
        let status = status_str(payment.status);
        let Payment {
            id,
            kind,
            amount_msat,
            fee_paid_msat,
            direction: _,
            status: _,
            latest_update_timestamp,
        } = payment;
        CliPayment {
            id,
            kind: CliPaymentKind::from_payment_kind(kind),
            amount_msat,
            fee_paid_msat,
            direction,
            status,
            latest_update_timestamp,
        }
    }
}

/// Normalizes a batch of payments, keeping the server's order exactly.
fn payments_to_display(payments: Vec<Payment>) -> (r: Vec<CliPayment>)
    ensures
        r@.len() == payments@.len(),
        forall|i: int|
            0 <= i < payments@.len() ==> payment_norm_ok(payments@[i], #[trigger] r@[i]),
{
    let ghost orig: Seq<Payment> = payments@;
    let mut rest = payments;
    let mut list: Vec<CliPayment> = Vec::new();
    while rest.len() > 0
        invariant
            list@.len() + rest@.len() == orig.len(),
            rest@ =~= orig.skip(list@.len() as int),
            forall|i: int|
                0 <= i < list@.len() ==> payment_norm_ok(orig[i], #[trigger] list@[i]),
        decreases rest@.len(),
    {
        let p = rest.remove(0);
        proof {
            assert(p == orig[list@.len() as int]);
            assert(rest@ =~= orig.skip(list@.len() as int + 1));
        }
        list.push(CliPayment::from(p));
    }
    list
}

impl<T> CliPaginatedResponse<T> {
    /// Wraps adapted items with the formatted cursor. An absent cursor
    /// stays absent, never an empty string.
    pub fn new(list: Vec<T>, next_page_token: Option<PageToken>) -> (r: Self)
        ensures
            r.list == list,
            next_page_token is None ==> r.next_page_token is None,
            next_page_token matches Some(t) ==> r.next_page_token matches Some(s) && s@
                == page_token_text(t),
    {
        let tok = match next_page_token {
            Option::Some(t) => Option::Some(format_page_token(t)),
            Option::None => Option::None,
        };
        CliPaginatedResponse { list, next_page_token: tok }
    }
}

impl CliPaginatedResponse<CliPayment> {
    /// Adapts a whole list response: every payment normalized in order,
    /// the cursor formatted, an absent cursor kept absent.
    pub fn from(response: ListPaymentsResponse) -> (r: Self)
        ensures
            r.list@.len() == response.payments@.len(),
            forall|i: int|
                0 <= i < response.payments@.len() ==> payment_norm_ok(
                    response.payments@[i],
                    #[trigger] r.list@[i],
                ),
            response.next_page_token is None ==> r.next_page_token is None,
            response.next_page_token matches Some(t) ==> r.next_page_token matches Some(s) && s@
                == page_token_text(t),
    {
        let ListPaymentsResponse { payments, next_page_token } = response;
        CliPaginatedResponse::new(payments_to_display(payments), next_page_token)
    }

    /// Adapts an envelope whose items are still raw payments. The page
    /// token, already in its display form, passes through unchanged:
    /// re-adapting what is already adapted is a no-op on it.
    pub fn from_payments(response: CliPaginatedResponse<Payment>) -> (r: Self)
        ensures
            r.list@.len() == response.list@.len(),
            forall|i: int|
                0 <= i < response.list@.len() ==> payment_norm_ok(
                    response.list@[i],
                    #[trigger] r.list@[i],
                ),
            r.next_page_token == response.next_page_token,
    {
        let CliPaginatedResponse { list, next_page_token } = response;
        CliPaginatedResponse { list: payments_to_display(list), next_page_token }
    }
}

impl CliGetPaymentDetailsResponse {
    /// Adapts a details response: the payment normalized when found, the
    /// field kept absent when not.
    pub fn from(response: GetPaymentDetailsResponse) -> (r: Self)
        ensures
            response.payment is None ==> r.payment is None,
            response.payment matches Some(p) ==> r.payment matches Some(c) && payment_norm_ok(
                p,
                c,
            ),
    {
        match response.payment {
            Option::None => CliGetPaymentDetailsResponse { payment: Option::None },
            Option::Some(p) => CliGetPaymentDetailsResponse {
                payment: Option::Some(CliPayment::from(p)),
            },
        }
    }
}

} // verus!
