use ldk_server_cli::display::{
    CliBytes, CliPaginatedResponse, CliPayment, CliPaymentKind, format_page_token,
};
use ldk_server_cli::records::{
    Bolt11, Bolt11Jit, Bolt12Offer, Bolt12Refund, GetPaymentDetailsResponse, Kind,
    ListPaymentsResponse, LspFeeLimits, Onchain, PageToken, Payment, PaymentKind, Spontaneous,
    direction_str, status_str,
};

fn some_kind(kind: Kind) -> Option<PaymentKind> {
    Some(PaymentKind { kind: Some(kind) })
}

#[test]
fn hex_encodes_bytes_lowercase() {
    assert_eq!(CliBytes::from(vec![0xde, 0xad]).0, "dead");
    assert_eq!(CliBytes::from(vec![0x00, 0x0f, 0xa0]).0, "000fa0");
    assert_eq!(CliBytes::from(vec![0xff]).0, "ff");
}

#[test]
fn hex_of_empty_is_empty() {
    assert_eq!(CliBytes::from(Vec::new()).0, "");
}

#[test]
fn hex_is_not_the_input() {
    let encoded = CliBytes::from(vec![b'a', b'b']).0;
    assert_ne!(encoded, "ab");
    assert_eq!(encoded, "6162");
}

#[test]
fn page_token_formats_as_token_colon_index() {
    let t = PageToken { token: String::from("xyz"), index: 5 };
    assert_eq!(format_page_token(t), "xyz:5");
}

#[test]
fn page_token_zero_and_large_index() {
    let t = PageToken { token: String::from("abc"), index: 0 };
    assert_eq!(format_page_token(t), "abc:0");
    let big = PageToken { token: String::from("t"), index: u64::MAX };
    assert_eq!(format_page_token(big), "t:18446744073709551615");
}

#[test]
fn page_token_empty_token_keeps_format() {
    let t = PageToken { token: String::new(), index: 10 };
    assert_eq!(format_page_token(t), ":10");
}

#[test]
fn direction_names_resolve_with_default() {
    assert_eq!(direction_str(0), "INBOUND");
    assert_eq!(direction_str(1), "OUTBOUND");
    assert_eq!(direction_str(7), "INBOUND");
}

#[test]
fn status_names_resolve_with_default() {
    assert_eq!(status_str(0), "PENDING");
    assert_eq!(status_str(1), "SUCCEEDED");
    assert_eq!(status_str(2), "FAILED");
    assert_eq!(status_str(-3), "PENDING");
}

#[test]
fn onchain_round_trip() {
    let got = CliPaymentKind::from_payment_kind(some_kind(Kind::Onchain(Onchain {})));
    assert!(matches!(got, Some(CliPaymentKind::Onchain(_))));
}

#[test]
fn bolt11_round_trip() {
    let raw = Bolt11 {
        hash: String::from("h1"),
        preimage: Some(String::from("p1")),
        secret: Some(vec![0x01, 0x02]),
    };
    match CliPaymentKind::from_payment_kind(some_kind(Kind::Bolt11(raw))) {
        Some(CliPaymentKind::Bolt11(c)) => {
            assert_eq!(c.hash, "h1");
            assert_eq!(c.preimage.as_deref(), Some("p1"));
            assert_eq!(c.secret.unwrap().0, "0102");
        },
        _ => panic!("wrong variant"),
    }
}

#[test]
fn bolt11_jit_round_trip() {
    let raw = Bolt11Jit {
        hash: String::from("h2"),
        preimage: None,
        secret: None,
        lsp_fee_limits: Some(LspFeeLimits {
            max_total_opening_fee_msat: Some(21),
            max_proportional_opening_fee_ppm_msat: None,
        }),
        counterparty_skimmed_fee_msat: Some(7),
    };
    match CliPaymentKind::from_payment_kind(some_kind(Kind::Bolt11Jit(raw))) {
        Some(CliPaymentKind::Bolt11Jit(c)) => {
            assert_eq!(c.hash, "h2");
            assert!(c.preimage.is_none());
            assert!(c.secret.is_none());
            let limits = c.lsp_fee_limits.unwrap();
            assert_eq!(limits.max_total_opening_fee_msat, Some(21));
            assert_eq!(limits.max_proportional_opening_fee_ppm_msat, None);
            assert_eq!(c.counterparty_skimmed_fee_msat, Some(7));
        },
        _ => panic!("wrong variant"),
    }
}

#[test]
fn bolt12_offer_round_trip() {
    let raw = Bolt12Offer {
        hash: Some(String::from("h3")),
        preimage: Some(String::from("p3")),
        secret: Some(vec![0xab]),
        offer_id: String::from("off-1"),
        payer_note: Some(String::from("note")),
        quantity: Some(3),
    };
    match CliPaymentKind::from_payment_kind(some_kind(Kind::Bolt12Offer(raw))) {
        Some(CliPaymentKind::Bolt12Offer(c)) => {
            assert_eq!(c.hash.as_deref(), Some("h3"));
            assert_eq!(c.preimage.as_deref(), Some("p3"));
            assert_eq!(c.secret.unwrap().0, "ab");
            assert_eq!(c.offer_id, "off-1");
            assert_eq!(c.payer_note.as_deref(), Some("note"));
            assert_eq!(c.quantity, Some(3));
        },
        _ => panic!("wrong variant"),
    }
}

#[test]
fn bolt12_refund_round_trip() {
    let raw = Bolt12Refund {
        hash: None,
        preimage: None,
        secret: Some(vec![0x10, 0x20]),
        payer_note: None,
        quantity: Some(1),
    };
    match CliPaymentKind::from_payment_kind(some_kind(Kind::Bolt12Refund(raw))) {
        Some(CliPaymentKind::Bolt12Refund(c)) => {
            assert!(c.hash.is_none());
            assert!(c.preimage.is_none());
            assert_eq!(c.secret.unwrap().0, "1020");
            assert!(c.payer_note.is_none());
            assert_eq!(c.quantity, Some(1));
        },
        _ => panic!("wrong variant"),
    }
}

#[test]
fn spontaneous_round_trip() {
    let raw = Spontaneous { hash: String::from("h4"), preimage: Some(String::from("p4")) };
    match CliPaymentKind::from_payment_kind(some_kind(Kind::Spontaneous(raw))) {
        Some(CliPaymentKind::Spontaneous(c)) => {
            assert_eq!(c.hash, "h4");
            assert_eq!(c.preimage.as_deref(), Some("p4"));
        },
        _ => panic!("wrong variant"),
    }
}

#[test]
fn absent_mechanism_stays_absent() {
    assert!(CliPaymentKind::from_payment_kind(None).is_none());
    assert!(CliPaymentKind::from_payment_kind(Some(PaymentKind { kind: None })).is_none());
}

#[test]
fn payment_normalizes_codes_and_mechanism() {
    let p = Payment {
        id: String::from("pay-1"),
        kind: some_kind(Kind::Spontaneous(Spontaneous {
            hash: String::from("h"),
            preimage: None,
        })),
        amount_msat: Some(1500),
        fee_paid_msat: Some(2),
        direction: 0,
        status: 2,
        latest_update_timestamp: 99,
    };
    let c = CliPayment::from(p);
    assert_eq!(c.id, "pay-1");
    assert!(matches!(c.kind, Some(CliPaymentKind::Spontaneous(_))));
    assert_eq!(c.amount_msat, Some(1500));
    assert_eq!(c.fee_paid_msat, Some(2));
    assert_eq!(c.direction, "INBOUND");
    assert_eq!(c.status, "FAILED");
    assert_eq!(c.latest_update_timestamp, 99);
}

#[test]
fn list_response_preserves_order_and_cursor() {
    let mk = |id: &str| Payment {
        id: String::from(id),
        kind: None,
        amount_msat: None,
        fee_paid_msat: None,
        direction: 1,
        status: 1,
        latest_update_timestamp: 0,
    };
    let resp = ListPaymentsResponse {
        payments: vec![mk("a"), mk("b"), mk("c")],
        next_page_token: Some(PageToken { token: String::from("xyz"), index: 5 }),
    };
    let cli = CliPaginatedResponse::from(resp);
    assert_eq!(cli.list.len(), 3);
    assert_eq!(cli.list[0].id, "a");
    assert_eq!(cli.list[1].id, "b");
    assert_eq!(cli.list[2].id, "c");
    assert_eq!(cli.next_page_token.as_deref(), Some("xyz:5"));
}

#[test]
fn list_response_without_cursor_has_none() {
    let resp = ListPaymentsResponse { payments: Vec::new(), next_page_token: None };
    let cli = CliPaginatedResponse::from(resp);
    assert!(cli.list.is_empty());
    assert!(cli.next_page_token.is_none());
}

#[test]
fn readapting_envelope_keeps_token_unchanged() {
    let raw = Payment {
        id: String::from("x"),
        kind: None,
        amount_msat: None,
        fee_paid_msat: None,
        direction: 1,
        status: 0,
        latest_update_timestamp: 1,
    };
    let envelope: CliPaginatedResponse<Payment> = CliPaginatedResponse {
        list: vec![raw],
        next_page_token: Some(String::from("xyz:5")),
    };
    let cli = CliPaginatedResponse::from_payments(envelope);
    assert_eq!(cli.next_page_token.as_deref(), Some("xyz:5"));
    assert_eq!(cli.list.len(), 1);
    assert_eq!(cli.list[0].id, "x");
}

#[test]
fn details_response_keeps_absence() {
    let cli = ldk_server_cli::display::CliGetPaymentDetailsResponse::from(
        GetPaymentDetailsResponse { payment: None },
    );
    assert!(cli.payment.is_none());
}

#[test]
fn paginated_new_formats_cursor() {
    let page: CliPaginatedResponse<CliPayment> = CliPaginatedResponse::new(
        Vec::new(),
        Some(PageToken { token: String::from("tok"), index: 42 }),
    );
    assert_eq!(page.next_page_token.as_deref(), Some("tok:42"));
    let bare: CliPaginatedResponse<CliPayment> = CliPaginatedResponse::new(Vec::new(), None);
    assert!(bare.next_page_token.is_none());
}
