//! General guarantees of the adaptation layer that relate the normalizer
//! to the serialization policy, stated and proved once.

use crate::display::{
    CliGetPaymentDetailsResponse, CliPaginatedResponse, CliPayment, payment_norm_ok,
};
use crate::records::Payment;
use vstd::prelude::*;

verus! {

/// A payment whose mechanism variant is absent serializes with no `kind`
/// key among its members at all.
pub proof fn lemma_kind_key_omitted(c: CliPayment)
    requires
        c.kind is None,
    ensures
        !c.present_keys().contains("kind"@),
{
    reveal_strlit("id");
    reveal_strlit("kind");
    reveal_strlit("amount_msat");
    reveal_strlit("fee_paid_msat");
    reveal_strlit("direction");
    reveal_strlit("status");
    reveal_strlit("latest_update_timestamp");
    let ks = c.present_keys();
    assert forall|i: int| 0 <= i < ks.len() implies (#[trigger] ks[i]).len() != "kind"@.len() by {
        assert(ks[i] == c.members()[i].0);
    }
    assert(!ks.contains("kind"@));
}

/// A payment whose mechanism variant is present serializes with a `kind`
/// key.
pub proof fn lemma_kind_key_present(c: CliPayment)
    requires
        c.kind is Some,
    ensures
        c.present_keys().contains("kind"@),
{
    assert(c.members()[1].0 == "kind"@);
    assert(c.present_keys()[1] == "kind"@);
}

/// A raw payment with no mechanism variant set — the tagged field absent
/// altogether, or carried with its tag unset — normalizes to a display
/// payment that serializes with no `kind` key at all.
pub proof fn lemma_no_variant_no_kind_key(p: Payment, c: CliPayment)
    requires
        payment_norm_ok(p, c),
        p.kind is None || (p.kind matches Some(pk) && pk.kind is None),
    ensures
        !c.present_keys().contains("kind"@),
{
    lemma_kind_key_omitted(c);
}

/// A listing serializes with a `next_page_token` key exactly when it has
/// a cursor; an absent cursor leaves the key out entirely rather than
/// writing an empty value.
pub proof fn lemma_page_token_key(e: CliPaginatedResponse<CliPayment>)
    ensures
        e.next_page_token is None ==> !e.present_keys().contains("next_page_token"@),
        e.next_page_token is Some ==> e.present_keys().contains("next_page_token"@),
{
    reveal_strlit("list");
    reveal_strlit("next_page_token");
    let ks = e.present_keys();
    if e.next_page_token is None {
        assert forall|i: int| 0 <= i < ks.len() implies (#[trigger] ks[i]).len()
            != "next_page_token"@.len() by {
            assert(ks[i] == e.members()[i].0);
        }
        assert(!ks.contains("next_page_token"@));
    } else {
        assert(e.members()[1].0 == "next_page_token"@);
        assert(ks[1] == "next_page_token"@);
    }
}

/// A details response serializes with a `payment` key exactly when a
/// payment was found.
pub proof fn lemma_payment_key(d: CliGetPaymentDetailsResponse)
    ensures
        d.payment is None ==> !d.present_keys().contains("payment"@),
        d.payment is Some ==> d.present_keys().contains("payment"@),
{
    let ks = d.present_keys();
    if d.payment is None {
        assert(ks.len() == 0);
        assert(!ks.contains("payment"@));
    } else {
        assert(d.members()[0].0 == "payment"@);
        assert(ks[0] == "payment"@);
    }
}

} // verus!
