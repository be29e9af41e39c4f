use server::payments::{
    decide_payment, failure_comment_text, insufficient_balance_error, payment_status_check,
    CreatePaymentRequest, PaymentDecision,
};

#[test]
fn payment_request_comment() {
    let r = CreatePaymentRequest { comment: Some("  for order  ".to_string()) }.validate().unwrap();
    assert_eq!(r.comment, Some("for order".to_string()));
    let r = CreatePaymentRequest { comment: Some(" ".to_string()) }.validate().unwrap();
    assert_eq!(r.comment, None);
    let e = CreatePaymentRequest { comment: Some("c".repeat(2001)) }.validate().unwrap_err();
    assert_eq!(e.message_text(), "comment must contain at most 2000 characters");
}

#[test]
fn payable_statuses() {
    assert!(payment_status_check("awaiting_payment").is_ok());
    assert!(payment_status_check("new").is_ok());
    for s in ["confirmed", "in_progress", "completed"] {
        let e = payment_status_check(s).unwrap_err();
        assert_eq!((e.status_code(), e.message_text()), (409, "order is already paid or being processed"));
    }
    let e = payment_status_check("draft").unwrap_err();
    assert_eq!(e.message_text(), "order is not ready for payment");
}

#[test]
fn failure_comments() {
    assert_eq!(failure_comment_text(&None), "Payment rejected: insufficient wallet balance");
    assert_eq!(
        failure_comment_text(&Some("gift".to_string())),
        "gift. Payment rejected: insufficient wallet balance"
    );
}

#[test]
fn payment_decisions() {
    match decide_payment(false, "awaiting_payment", true, &None) {
        PaymentDecision::Refuse(e) => {
            assert_eq!((e.status_code(), e.message_text()), (422, "order total amount must be greater than zero"))
        },
        other => panic!("unexpected {:?}", other),
    }
    match decide_payment(true, "completed", true, &None) {
        PaymentDecision::Refuse(e) => assert_eq!(e.status_code(), 409),
        other => panic!("unexpected {:?}", other),
    }
    match decide_payment(true, "new", false, &Some("x".to_string())) {
        PaymentDecision::RecordFailure(c) => assert_eq!(c, "x. Payment rejected: insufficient wallet balance"),
        other => panic!("unexpected {:?}", other),
    }
    assert!(matches!(decide_payment(true, "awaiting_payment", true, &None), PaymentDecision::Pay));
    let e = insufficient_balance_error();
    assert_eq!((e.status_code(), e.message_text()), (409, "insufficient wallet balance"));
}

#[test]
fn checkout_status_is_payable_and_cart_status_is_not() {
    assert!(server::payments::payment_status_check(server::orders::awaiting_payment_status()).is_ok());
    let e = server::payments::payment_status_check(server::orders::draft_status()).unwrap_err();
    assert_eq!((e.status_code(), e.message_text()), (409, "order is not ready for payment"));
}
