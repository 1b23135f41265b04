//! The serialization policy for the display records, written out
//! explicitly: every record renders as a JSON object that lists exactly
//! its present fields, in declaration order, and omits absent optional
//! fields entirely — never writing null or an empty marker, because
//! downstream consumers read presence of a key as a signal.

use crate::display::{
    CliBolt11, CliBolt11Jit, CliBolt12Offer, CliBolt12Refund, CliBytes,
    CliGetPaymentDetailsResponse, CliPaginatedResponse, CliPayment, CliPaymentKind, CliSpontaneous,
};
use crate::records::{LspFeeLimits, Onchain};
use crate::text::{
    append_member, dec_of, joined, lemma_joined_push, quoted, quoted_string, render_obj,
    u64_to_dec,
};
use vstd::prelude::*;

verus! {

/// Assembles one JSON object member by member, tracking the members
/// written so far.
struct ObjBuilder {
    out: String,
    first: bool,
    members_so_far: Ghost<Seq<(Seq<char>, Seq<char>)>>,
}

impl ObjBuilder {
    spec fn members(self) -> Seq<(Seq<char>, Seq<char>)> {
        self.members_so_far@
    }

    spec fn wf(self) -> bool {
        &&& self.out@ == seq!['{'] + joined(self.members_so_far@)
        &&& (self.first <==> self.members_so_far@.len() == 0)
    }

    fn new() -> (r: ObjBuilder)
        ensures
            r.wf(),
            r.members() == Seq::<(Seq<char>, Seq<char>)>::empty(),
    {
        let mut out = String::new();
        out.push('{');
        let r = ObjBuilder { out, first: true, members_so_far: Ghost(Seq::empty()) };
        proof {
            assert(r.out@ =~= seq!['{'] + joined(r.members_so_far@));
        }
        r
    }

    /// Writes `"key":value`, preceded by a comma when a member is already
    /// in place.
    fn member(&mut self, key: &str, val: &str)
        requires
            old(self).wf(),
        ensures
            final(self).wf(),
            final(self).members() == old(self).members().push((key@, val@)),
    {
        let sep = !self.first;
        append_member(&mut self.out, sep, key, val);
        self.first = false;
        proof {
            lemma_joined_push(self.members_so_far@, (key@, val@));
            self.members_so_far@ = self.members_so_far@.push((key@, val@));
            assert(self.out@ =~= seq!['{'] + joined(self.members_so_far@));
        }
    }

    /// Closes the object.
    fn finish(self) -> (r: String)
        requires
            self.wf(),
        ensures
            r@ == render_obj(self.members()),
    {
        let ObjBuilder { out, first: _, members_so_far } = self;
        let mut out = out;
        out.push('}');
        proof {
            assert(out@ =~= render_obj(members_so_far@));
        }
        out
    }
}

impl CliBytes {
    /// A hex-encoded byte field renders as a plain JSON string.
    pub open spec fn json(self) -> Seq<char> {
        quoted(self.0@)
    }

    pub fn to_json(&self) -> (r: String)
        ensures
            r@ == self.json(),
    {
        quoted_string(self.0.as_str())
    }
}

impl Onchain {
    /// An on-chain record carries no display fields and renders as the
    /// empty object.
    pub open spec fn json(self) -> Seq<char> {
        render_obj(Seq::empty())
    }

    pub fn to_json(&self) -> (r: String)
        ensures
            r@ == self.json(),
    {
        let b = ObjBuilder::new();
        b.finish()
    }
}

impl LspFeeLimits {
    pub open spec fn members(self) -> Seq<(Seq<char>, Seq<char>)> {
        (if self.max_total_opening_fee_msat is Some {
            seq![
                ("max_total_opening_fee_msat"@, dec_of(self.max_total_opening_fee_msat->0 as nat)),
            ]
        } else {
            Seq::empty()
        }) + (if self.max_proportional_opening_fee_ppm_msat is Some {
            seq![
                (
                    "max_proportional_opening_fee_ppm_msat"@,
                    dec_of(self.max_proportional_opening_fee_ppm_msat->0 as nat),
                ),
            ]
        } else {
            Seq::empty()
        })
    }

    pub open spec fn json(self) -> Seq<char> {
        render_obj(self.members())
    }

    pub fn to_json(&self) -> (r: String)
        ensures
            r@ == self.json(),
    {
        let mut b = ObjBuilder::new();
        match self.max_total_opening_fee_msat {
            Option::Some(v) => {
                let t = u64_to_dec(v);
                b.member("max_total_opening_fee_msat", t.as_str());
            },
            Option::None => {},
        }
        match self.max_proportional_opening_fee_ppm_msat {
            Option::Some(v) => {
                let t = u64_to_dec(v);
                b.member("max_proportional_opening_fee_ppm_msat", t.as_str());
            },
            Option::None => {},
        }
        proof {
            assert(b.members() =~= self.members());
        }
        b.finish()
    }
}

impl CliBolt11 {
    pub open spec fn members(self) -> Seq<(Seq<char>, Seq<char>)> {
        seq![("hash"@, quoted(self.hash@))] + (if self.preimage is Some {
            seq![("preimage"@, quoted(self.preimage->0@))]
        } else {
            Seq::empty()
        }) + (if self.secret is Some {
            seq![("secret"@, self.secret->0.json())]
        } else {
            Seq::empty()
        })
    }

    pub open spec fn json(self) -> Seq<char> {
        render_obj(self.members())
    }

    pub fn to_json(&self) -> (r: String)
        ensures
            r@ == self.json(),
    {
        let mut b = ObjBuilder::new();
        let hv = quoted_string(self.hash.as_str());
        b.member("hash", hv.as_str());
        match &self.preimage {
            Option::Some(p) => {
                let pv = quoted_string(p.as_str());
                b.member("preimage", pv.as_str());
            },
            Option::None => {},
        }
        match &self.secret {
            Option::Some(s) => {
                let sv = s.to_json();
                b.member("secret", sv.as_str());
            },
            Option::None => {},
        }
        proof {
            assert(b.members() =~= self.members());
        }
        b.finish()
    }
}

impl CliBolt11Jit {
    pub open spec fn members(self) -> Seq<(Seq<char>, Seq<char>)> {
        seq![("hash"@, quoted(self.hash@))] + (if self.preimage is Some {
            seq![("preimage"@, quoted(self.preimage->0@))]
        } else {
            Seq::empty()
        }) + (if self.secret is Some {
            seq![("secret"@, self.secret->0.json())]
        } else {
            Seq::empty()
        }) + (if self.lsp_fee_limits is Some {
            seq![("lsp_fee_limits"@, self.lsp_fee_limits->0.json())]
        } else {
            Seq::empty()
        }) + (if self.counterparty_skimmed_fee_msat is Some {
            seq![
                (
                    "counterparty_skimmed_fee_msat"@,
                    dec_of(self.counterparty_skimmed_fee_msat->0 as nat),
                ),
            ]
        } else {
            Seq::empty()
        })
    }

    pub open spec fn json(self) -> Seq<char> {
        render_obj(self.members())
    }

    pub fn to_json(&self) -> (r: String)
        ensures
            r@ == self.json(),
    {
        let mut b = ObjBuilder::new();
        let hv = quoted_string(self.hash.as_str());
        b.member("hash", hv.as_str());
        match &self.preimage {
            Option::Some(p) => {
                let pv = quoted_string(p.as_str());
                b.member("preimage", pv.as_str());
            },
            Option::None => {},
        }
        match &self.secret {
            Option::Some(s) => {
                let sv = s.to_json();
                b.member("secret", sv.as_str());
            },
            Option::None => {},
        }
        match &self.lsp_fee_limits {
            Option::Some(l) => {
                let lv = l.to_json();
                b.member("lsp_fee_limits", lv.as_str());
            },
            Option::None => {},
        }
        match self.counterparty_skimmed_fee_msat {
            Option::Some(v) => {
                let fv = u64_to_dec(v);
                b.member("counterparty_skimmed_fee_msat", fv.as_str());
            },
            Option::None => {},
        }
        proof {
            assert(b.members() =~= self.members());
        }
        b.finish()
    }
}

impl CliBolt12Offer {
    pub open spec fn members(self) -> Seq<(Seq<char>, Seq<char>)> {
        (if self.hash is Some {
            seq![("hash"@, quoted(self.hash->0@))]
        } else {
            Seq::empty()
        }) + (if self.preimage is Some {
            seq![("preimage"@, quoted(self.preimage->0@))]
        } else {
            Seq::empty()
        }) + (if self.secret is Some {
            seq![("secret"@, self.secret->0.json())]
        } else {
            Seq::empty()
        }) + seq![("offer_id"@, quoted(self.offer_id@))] + (if self.payer_note is Some {
            seq![("payer_note"@, quoted(self.payer_note->0@))]
        } else {
            Seq::empty()
        }) + (if self.quantity is Some {
            seq![("quantity"@, dec_of(self.quantity->0 as nat))]
        } else {
            Seq::empty()
        })
    }

    pub open spec fn json(self) -> Seq<char> {
        render_obj(self.members())
    }

    pub fn to_json(&self) -> (r: String)
        ensures
            r@ == self.json(),
    {
        let mut b = ObjBuilder::new();
        match &self.hash {
            Option::Some(h) => {
                let hv = quoted_string(h.as_str());
                b.member("hash", hv.as_str());
            },
            Option::None => {},
        }
        match &self.preimage {
            Option::Some(p) => {
                let pv = quoted_string(p.as_str());
                b.member("preimage", pv.as_str());
            },
            Option::None => {},
        }
        match &self.secret {
            Option::Some(s) => {
                let sv = s.to_json();
                b.member("secret", sv.as_str());
            },
            Option::None => {},
        }
        let ov = quoted_string(self.offer_id.as_str());
        b.member("offer_id", ov.as_str());
        match &self.payer_note {
            Option::Some(n) => {
                let nv = quoted_string(n.as_str());
                b.member("payer_note", nv.as_str());
            },
            Option::None => {},
        }
        match self.quantity {
            Option::Some(q) => {
                let qv = u64_to_dec(q);
                b.member("quantity", qv.as_str());
            },
            Option::None => {},
        }
        proof {
            assert(b.members() =~= self.members());
        }
        b.finish()
    }
}

impl CliBolt12Refund {
    pub open spec fn members(self) -> Seq<(Seq<char>, Seq<char>)> {
        (if self.hash is Some {
            seq![("hash"@, quoted(self.hash->0@))]
        } else {
            Seq::empty()
        }) + (if self.preimage is Some {
            seq![("preimage"@, quoted(self.preimage->0@))]
        } else {
            Seq::empty()
        }) + (if self.secret is Some {
            seq![("secret"@, self.secret->0.json())]
        } else {
            Seq::empty()
        }) + (if self.payer_note is Some {
            seq![("payer_note"@, quoted(self.payer_note->0@))]
        } else {
            Seq::empty()
        }) + (if self.quantity is Some {
            seq![("quantity"@, dec_of(self.quantity->0 as nat))]
        } else {
            Seq::empty()
        })
    }

    pub open spec fn json(self) -> Seq<char> {
        render_obj(self.members())
    }

    pub fn to_json(&self) -> (r: String)
        ensures
            r@ == self.json(),
    {
        let mut b = ObjBuilder::new();
        match &self.hash {
            Option::Some(h) => {
                let hv = quoted_string(h.as_str());
                b.member("hash", hv.as_str());
            },
            Option::None => {},
        }
        match &self.preimage {
            Option::Some(p) => {
                let pv = quoted_string(p.as_str());
                b.member("preimage", pv.as_str());
            },
            Option::None => {},
        }
        match &self.secret {
            Option::Some(s) => {
                let sv = s.to_json();
                b.member("secret", sv.as_str());
            },
            Option::None => {},
        }
        match &self.payer_note {
            Option::Some(n) => {
                let nv = quoted_string(n.as_str());
                b.member("payer_note", nv.as_str());
            },
            Option::None => {},
        }
        match self.quantity {
            Option::Some(q) => {
                let qv = u64_to_dec(q);
                b.member("quantity", qv.as_str());
            },
            Option::None => {},
        }
        proof {
            assert(b.members() =~= self.members());
        }
        b.finish()
    }
}

impl CliSpontaneous {
    pub open spec fn members(self) -> Seq<(Seq<char>, Seq<char>)> {
        seq![("hash"@, quoted(self.hash@))] + (if self.preimage is Some {
            seq![("preimage"@, quoted(self.preimage->0@))]
        } else {
            Seq::empty()
        })
    }

    pub open spec fn json(self) -> Seq<char> {
        render_obj(self.members())
    }

    pub fn to_json(&self) -> (r: String)
        ensures
            r@ == self.json(),
    {
        let mut b = ObjBuilder::new();
        let hv = quoted_string(self.hash.as_str());
        b.member("hash", hv.as_str());
        match &self.preimage {
            Option::Some(p) => {
                let pv = quoted_string(p.as_str());
                b.member("preimage", pv.as_str());
            },
            Option::None => {},
        }
        proof {
            assert(b.members() =~= self.members());
        }
        b.finish()
    }
}

impl CliPaymentKind {
    /// A mechanism variant renders as an object with a single member whose
    /// key names the kind.
    pub open spec fn json(self) -> Seq<char> {
        match self {
            CliPaymentKind::Onchain(o) => render_obj(seq![("onchain"@, o.json())]),
            CliPaymentKind::Bolt11(b) => render_obj(seq![("bolt11"@, b.json())]),
            CliPaymentKind::Bolt11Jit(b) => render_obj(seq![("bolt11_jit"@, b.json())]),
            CliPaymentKind::Bolt12Offer(b) => render_obj(seq![("bolt12_offer"@, b.json())]),
            CliPaymentKind::Bolt12Refund(b) => render_obj(seq![("bolt12_refund"@, b.json())]),
            CliPaymentKind::Spontaneous(b) => render_obj(seq![("spontaneous"@, b.json())]),
        }
    }

    pub fn to_json(&self) -> (r: String)
        ensures
            r@ == self.json(),
    {
        match self {
            CliPaymentKind::Onchain(o) => {
                let mut b = ObjBuilder::new();
                let v = o.to_json();
                b.member("onchain", v.as_str());
                proof {
                    assert(b.members() =~= seq![("onchain"@, o.json())]);
                }
                b.finish()
            },
            CliPaymentKind::Bolt11(p) => {
                let mut b = ObjBuilder::new();
                let v = p.to_json();
                b.member("bolt11", v.as_str());
                proof {
                    assert(b.members() =~= seq![("bolt11"@, p.json())]);
                }
                b.finish()
            },
            CliPaymentKind::Bolt11Jit(p) => {
                let mut b = ObjBuilder::new();
                let v = p.to_json();
                b.member("bolt11_jit", v.as_str());
                proof {
                    assert(b.members() =~= seq![("bolt11_jit"@, p.json())]);
                }
                b.finish()
            },
            CliPaymentKind::Bolt12Offer(p) => {
                let mut b = ObjBuilder::new();
                let v = p.to_json();
                b.member("bolt12_offer", v.as_str());
                proof {
                    assert(b.members() =~= seq![("bolt12_offer"@, p.json())]);
                }
                b.finish()
            },
            CliPaymentKind::Bolt12Refund(p) => {
                let mut b = ObjBuilder::new();
                let v = p.to_json();
                b.member("bolt12_refund", v.as_str());
                proof {
                    assert(b.members() =~= seq![("bolt12_refund"@, p.json())]);
                }
                b.finish()
            },
            CliPaymentKind::Spontaneous(p) => {
                let mut b = ObjBuilder::new();
                let v = p.to_json();
                b.member("spontaneous", v.as_str());
                proof {
                    assert(b.members() =~= seq![("spontaneous"@, p.json())]);
                }
                b.finish()
            },
        }
    }
}

impl CliPayment {
    pub open spec fn members(self) -> Seq<(Seq<char>, Seq<char>)> {
        seq![("id"@, quoted(self.id@))] + (if self.kind is Some {
            seq![("kind"@, self.kind->0.json())]
        } else {
            Seq::empty()
        }) + (if self.amount_msat is Some {
            seq![("amount_msat"@, dec_of(self.amount_msat->0 as nat))]
        } else {
            Seq::empty()
        }) + (if self.fee_paid_msat is Some {
            seq![("fee_paid_msat"@, dec_of(self.fee_paid_msat->0 as nat))]
        } else {
            Seq::empty()
        }) + seq![
            ("direction"@, quoted(self.direction@)),
            ("status"@, quoted(self.status@)),
            ("latest_update_timestamp"@, dec_of(self.latest_update_timestamp as nat)),
        ]
    }

    /// The keys this payment's serialization carries, in output order.
    pub open spec fn present_keys(self) -> Seq<Seq<char>> {
        self.members().map_values(|m: (Seq<char>, Seq<char>)| m.0)
    }

    pub open spec fn json(self) -> Seq<char> {
        render_obj(self.members())
    }

    pub fn to_json(&self) -> (r: String)
        ensures
            r@ == self.json(),
    {
        let mut b = ObjBuilder::new();
        let idv = quoted_string(self.id.as_str());
        b.member("id", idv.as_str());
        match &self.kind {
            Option::Some(k) => {
                let kv = k.to_json();
                b.member("kind", kv.as_str());
            },
            Option::None => {},
        }
        match self.amount_msat {
            Option::Some(a) => {
                let av = u64_to_dec(a);
                b.member("amount_msat", av.as_str());
            },
            Option::None => {},
        }
        match self.fee_paid_msat {
            Option::Some(f) => {
                let fv = u64_to_dec(f);
                b.member("fee_paid_msat", fv.as_str());
            },
            Option::None => {},
        }
        let dv = quoted_string(self.direction.as_str());
        b.member("direction", dv.as_str());
        let sv = quoted_string(self.status.as_str());
        b.member("status", sv.as_str());
        let tv = u64_to_dec(self.latest_update_timestamp);
        b.member("latest_update_timestamp", tv.as_str());
        proof {
            assert(b.members() =~= self.members());
        }
        b.finish()
    }
}

/// The payments of a page joined with commas, in server order.
pub open spec fn joined_items(items: Seq<CliPayment>) -> Seq<char>
    decreases items.len(),
{
    if items.len() == 0 {
        Seq::empty()
    } else if items.len() == 1 {
        items[0].json()
    } else {
        joined_items(items.drop_last()) + seq![','] + items.last().json()
    }
}

/// A JSON array of payments.
pub open spec fn items_array(items: Seq<CliPayment>) -> Seq<char> {
    seq!['['] + joined_items(items) + seq![']']
}

fn payments_array_json(list: &Vec<CliPayment>) -> (r: String)
    ensures
        r@ == items_array(list@),
{
    let mut out = String::new();
    out.push('[');
    let n: usize = list.len();
    let mut i: usize = 0;
    while i < n
        invariant
            n == list@.len(),
            i <= n,
            out@ == seq!['['] + joined_items(list@.take(i as int)),
        decreases n - i,
    {
        if i > 0 {
            out.push(',');
        }
        let v = list[i].to_json();
        out.append(v.as_str());
        proof {
            assert(list@.take(i as int + 1).drop_last() =~= list@.take(i as int));
            assert(list@.take(i as int + 1).last() == list@[i as int]);
            assert(out@ =~= seq!['['] + joined_items(list@.take(i as int + 1)));
        }
        i = i + 1;
    }
    out.push(']');
    proof {
        assert(list@.take(n as int) =~= list@);
        assert(out@ =~= items_array(list@));
    }
    out
}

impl CliPaginatedResponse<CliPayment> {
    pub open spec fn members(self) -> Seq<(Seq<char>, Seq<char>)> {
        seq![("list"@, items_array(self.list@))] + (if self.next_page_token is Some {
            seq![("next_page_token"@, quoted(self.next_page_token->0@))]
        } else {
            Seq::empty()
        })
    }

    /// The keys this listing's serialization carries, in output order.
    pub open spec fn present_keys(self) -> Seq<Seq<char>> {
        self.members().map_values(|m: (Seq<char>, Seq<char>)| m.0)
    }

    pub open spec fn json(self) -> Seq<char> {
        render_obj(self.members())
    }

    pub fn to_json(&self) -> (r: String)
        ensures
            r@ == self.json(),
    {
        let mut b = ObjBuilder::new();
        let lv = payments_array_json(&self.list);
        b.member("list", lv.as_str());
        match &self.next_page_token {
            Option::Some(t) => {
                let tv = quoted_string(t.as_str());
                b.member("next_page_token", tv.as_str());
            },
            Option::None => {},
        }
        proof {
            assert(b.members() =~= self.members());
        }
        b.finish()
    }
}

impl CliGetPaymentDetailsResponse {
    pub open spec fn members(self) -> Seq<(Seq<char>, Seq<char>)> {
        if self.payment is Some {
            seq![("payment"@, self.payment->0.json())]
        } else {
            Seq::empty()
        }
    }

    /// The keys this response's serialization carries.
    pub open spec fn present_keys(self) -> Seq<Seq<char>> {
        self.members().map_values(|m: (Seq<char>, Seq<char>)| m.0)
    }

    pub open spec fn json(self) -> Seq<char> {
        render_obj(self.members())
    }

    pub fn to_json(&self) -> (r: String)
        ensures
            r@ == self.json(),
    {
        let mut b = ObjBuilder::new();
        match &self.payment {
            Option::Some(p) => {
                let pv = p.to_json();
                b.member("payment", pv.as_str());
            },
            Option::None => {},
        }
        proof {
            assert(b.members() =~= self.members());
        }
        b.finish()
    }
}

} // verus!
