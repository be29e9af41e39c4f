use server::orders::{
    awaiting_payment_status, checkout_gate, draft_status, ensure_order_owner, require_draft,
    AddProductToCartRequest, AddServiceToCartRequest, CheckoutOrderRequest,
    CheckoutOrderRequestValid, ContactFullName, EmployeeOrderStatusUpdateRequest,
    EmployeeOrderStatusUpdateRequestValid, OrderNumber, OrderStatusCode, PostalAddress,
};

#[test]
fn order_number_composition() {
    let n = OrderNumber::compose("20240101093000", "0190a1b2c3d4e5f6");
    assert_eq!(n.0, "ORD-20240101093000-0190a1b2");
}

#[test]
fn generated_order_numbers_have_the_documented_shape() {
    let n = OrderNumber::generate().0;
    assert!(n.starts_with("ORD-"));
    let parts: Vec<&str> = n.split('-').collect();
    assert_eq!(parts.len(), 3);
    assert_eq!(parts[1].len(), 14);
    assert!(parts[1].chars().all(|c| c.is_ascii_digit()));
    assert_eq!(parts[2].len(), 8);
    assert!(parts[2].chars().all(|c| c.is_ascii_hexdigit() && !c.is_ascii_uppercase()));
}

#[test]
fn cart_quantities() {
    let ok = AddServiceToCartRequest { service_id: 5, quantity: 2 }.validate().unwrap();
    assert_eq!((ok.service_id, ok.quantity), (5, 2));
    let e = AddServiceToCartRequest { service_id: 5, quantity: 0 }.validate().unwrap_err();
    assert_eq!((e.status_code(), e.message_text()), (422, "quantity must be greater than zero"));
    assert!(AddProductToCartRequest { product_id: 1, quantity: 1 }.validate().is_ok());
    assert!(AddProductToCartRequest { product_id: 1, quantity: -1 }.validate().is_err());
}

#[test]
fn contact_newtypes() {
    assert_eq!(ContactFullName::try_from(" Ivan Petrenko ".to_string()).unwrap().0, "Ivan Petrenko");
    assert!(ContactFullName::try_from("Iv".to_string()).is_err());
    assert!(PostalAddress::try_from("abcd".to_string()).is_err());
    assert_eq!(OrderStatusCode::try_from(" in_progress ".to_string()).unwrap().0, "in_progress");
    let e = OrderStatusCode::try_from("ok".to_string()).unwrap_err();
    assert_eq!(e.message_text(), "status_code must contain from 3 to 64 characters");
}

#[test]
fn checkout_request() {
    let v = CheckoutOrderRequestValid::try_from(CheckoutOrderRequest {
        contact_name: "Ivan Petrenko".to_string(),
        contact_phone: "+380501234567".to_string(),
        contact_email: "Ivan@Mail.UA".to_string(),
        delivery_address: "Kyiv, Main st. 1".to_string(),
    })
    .unwrap();
    assert_eq!(v.contact_email.0, "ivan@mail.ua");
    assert_eq!(v.contact_phone.0, "+380501234567");
    let e = CheckoutOrderRequestValid::try_from(CheckoutOrderRequest {
        contact_name: "Ivan Petrenko".to_string(),
        contact_phone: "123".to_string(),
        contact_email: "bad".to_string(),
        delivery_address: "x".to_string(),
    })
    .unwrap_err();
    assert_eq!(e.message_text(), "contact_phone must be a valid phone number");
}

#[test]
fn status_update_request() {
    let v = EmployeeOrderStatusUpdateRequestValid::try_from(EmployeeOrderStatusUpdateRequest {
        status_code: "completed".to_string(),
        comment: Some("  ".to_string()),
    })
    .unwrap();
    assert_eq!(v.status_code.0, "completed");
    assert_eq!(v.comment, None);
}

#[test]
fn draft_and_owner_checks() {
    assert_eq!(require_draft(Some(4)).unwrap(), 4);
    let e = require_draft(None).unwrap_err();
    assert_eq!((e.status_code(), e.message_text()), (404, "draft order not found"));
    assert!(ensure_order_owner(1, 1).is_ok());
    let e = ensure_order_owner(1, 2).unwrap_err();
    assert_eq!((e.status_code(), e.message_text()), (403, "order does not belong to the current user"));
    assert!(checkout_gate(true).is_ok());
    assert_eq!(checkout_gate(false).unwrap_err().message_text(), "draft order must contain at least one item");
    assert_eq!(draft_status(), "draft");
    assert_eq!(awaiting_payment_status(), "awaiting_payment");
}
