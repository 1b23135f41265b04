use ldk_server_cli::display::{
    CliBolt12Refund, CliBytes, CliGetPaymentDetailsResponse, CliPaginatedResponse, CliPayment,
    CliPaymentKind,
};
use ldk_server_cli::records::{
    Bolt11, GetPaymentDetailsResponse, Kind, ListPaymentsResponse, LspFeeLimits, Onchain,
    PageToken, Payment, PaymentKind,
};

fn sample_payment(id: &str) -> Payment {
    Payment {
        id: String::from(id),
        kind: None,
        amount_msat: None,
        fee_paid_msat: None,
        direction: 1,
        status: 1,
        latest_update_timestamp: 7,
    }
}

#[test]
fn bolt11_payment_serializes_exactly() {
    let p = Payment {
        id: String::from("p1"),
        kind: Some(PaymentKind {
            kind: Some(Kind::Bolt11(Bolt11 {
                hash: String::from("abc"),
                preimage: None,
                secret: Some(vec![0xde, 0xad]),
            })),
        }),
        amount_msat: Some(1000),
        fee_paid_msat: None,
        direction: 1,
        status: 1,
        latest_update_timestamp: 1234,
    };
    let out = CliPayment::from(p).to_json();
    assert_eq!(
        out,
        "{\"id\":\"p1\",\"kind\":{\"bolt11\":{\"hash\":\"abc\",\"secret\":\"dead\"}},\
         \"amount_msat\":1000,\"direction\":\"OUTBOUND\",\"status\":\"SUCCEEDED\",\
         \"latest_update_timestamp\":1234}"
    );
    assert!(!out.contains("preimage"));
    assert!(out.contains("\"secret\":\"dead\""));
    assert!(out.contains("\"direction\":\"OUTBOUND\""));
    assert!(out.contains("\"status\":\"SUCCEEDED\""));
}

#[test]
fn payment_without_mechanism_has_no_kind_key() {
    let out = CliPayment::from(sample_payment("p2")).to_json();
    assert_eq!(
        out,
        "{\"id\":\"p2\",\"direction\":\"OUTBOUND\",\"status\":\"SUCCEEDED\",\
         \"latest_update_timestamp\":7}"
    );
    assert!(!out.contains("\"kind\""));
    assert!(!out.contains("null"));
}

#[test]
fn unset_tag_serializes_like_absent_mechanism() {
    let mut p = sample_payment("p3");
    p.kind = Some(PaymentKind { kind: None });
    let out = CliPayment::from(p).to_json();
    assert!(!out.contains("\"kind\""));
}

#[test]
fn list_with_cursor_serializes_token_text() {
    let resp = ListPaymentsResponse {
        payments: vec![sample_payment("a"), sample_payment("b")],
        next_page_token: Some(PageToken { token: String::from("xyz"), index: 5 }),
    };
    let out = CliPaginatedResponse::from(resp).to_json();
    assert!(out.contains("\"next_page_token\":\"xyz:5\""));
    assert!(out.starts_with("{\"list\":[{\"id\":\"a\""));
    assert!(out.contains("{\"id\":\"b\""));
}

#[test]
fn list_without_cursor_omits_token_key() {
    let resp = ListPaymentsResponse {
        payments: vec![sample_payment("a")],
        next_page_token: None,
    };
    let out = CliPaginatedResponse::from(resp).to_json();
    assert!(!out.contains("next_page_token"));
    assert!(out.ends_with("]}"));
}

#[test]
fn empty_list_serializes_as_empty_array() {
    let resp = ListPaymentsResponse { payments: Vec::new(), next_page_token: None };
    let out = CliPaginatedResponse::from(resp).to_json();
    assert_eq!(out, "{\"list\":[]}");
}

#[test]
fn details_without_payment_is_empty_object() {
    let out =
        CliGetPaymentDetailsResponse::from(GetPaymentDetailsResponse { payment: None }).to_json();
    assert_eq!(out, "{}");
    assert!(!out.contains("payment"));
}

#[test]
fn details_with_payment_has_payment_key() {
    let resp = GetPaymentDetailsResponse { payment: Some(sample_payment("found")) };
    let out = CliGetPaymentDetailsResponse::from(resp).to_json();
    assert!(out.starts_with("{\"payment\":{\"id\":\"found\""));
}

#[test]
fn onchain_variant_serializes_as_empty_object() {
    let k = CliPaymentKind::from_payment_kind(Some(PaymentKind {
        kind: Some(Kind::Onchain(Onchain {})),
    }))
    .unwrap();
    assert_eq!(k.to_json(), "{\"onchain\":{}}");
}

#[test]
fn refund_with_all_fields_absent_is_empty() {
    let c = CliBolt12Refund {
        hash: None,
        preimage: None,
        secret: None,
        payer_note: None,
        quantity: None,
    };
    assert_eq!(c.to_json(), "{}");
}

#[test]
fn lsp_fee_limits_pass_through_in_json() {
    let l = LspFeeLimits {
        max_total_opening_fee_msat: Some(5),
        max_proportional_opening_fee_ppm_msat: None,
    };
    assert_eq!(l.to_json(), "{\"max_total_opening_fee_msat\":5}");
}

#[test]
fn strings_are_escaped_like_json_requires() {
    let mut p = sample_payment("a\"b\\c\nd");
    p.id.push('\u{1}');
    let out = CliPayment::from(p).to_json();
    assert!(out.contains("\"id\":\"a\\\"b\\\\c\\nd\\u0001\""));
}

#[test]
fn named_control_escapes_are_short() {
    let p = sample_payment("t\tb\u{8}f\u{c}r\r");
    let out = CliPayment::from(p).to_json();
    assert!(out.contains("\"id\":\"t\\tb\\bf\\fr\\r\""));
}

#[test]
fn bytes_render_as_bare_hex_string() {
    assert_eq!(CliBytes::from(vec![0x0a, 0xb0]).to_json(), "\"0ab0\"");
}

#[test]
fn large_numbers_keep_all_digits() {
    let mut p = sample_payment("big");
    p.amount_msat = Some(u64::MAX);
    p.latest_update_timestamp = 10_000_000_000;
    let out = CliPayment::from(p).to_json();
    assert!(out.contains("\"amount_msat\":18446744073709551615"));
    assert!(out.contains("\"latest_update_timestamp\":10000000000"));
}
