use server::events::{domain_events_stream, DomainEvent};
use server::passwords::{hash_password, login_gate, registration_gate, verify_password};

#[test]
fn event_names() {
    let all = [
        DomainEvent::OrderCreated { order_id: 1, order_number: "ORD".to_string() },
        DomainEvent::OrderStatusChanged { order_id: 1, status_code: "new".to_string() },
        DomainEvent::PaymentCreated { order_id: 1, payment_id: 2 },
        DomainEvent::PaymentUpdated { order_id: 1, payment_id: 2, status: "paid".to_string() },
        DomainEvent::AppointmentConfirmed { order_id: 1, appointment_id: 3 },
        DomainEvent::UserRoleChanged { user_id: 1, role: "admin".to_string() },
    ];
    let names: Vec<&str> = all.iter().map(|e| e.event_name()).collect();
    assert_eq!(
        names,
        vec![
            "order.created",
            "order.status_changed",
            "payment.created",
            "payment.updated",
            "appointment.confirmed",
            "user.role_changed"
        ]
    );
    let mut unique = names.clone();
    unique.sort();
    unique.dedup();
    assert_eq!(unique.len(), 6);
    assert_eq!(domain_events_stream(), "domain:events");
}

#[test]
fn hash_then_verify() {
    let h = hash_password("correct horse").unwrap();
    assert!(h.starts_with("$argon2"));
    assert!(verify_password("correct horse", &h).is_ok());
    let e = verify_password("wrong horse", &h).unwrap_err();
    assert_eq!((e.status_code(), e.message_text()), (401, "invalid credentials"));
    assert_ne!(hash_password("correct horse").unwrap(), h);
}

#[test]
fn malformed_hash_is_internal_error() {
    let e = verify_password("x", "not a hash").unwrap_err();
    assert_eq!(e.status_code(), 500);
    assert!(!e.message_text().is_empty());
}

#[test]
fn login_and_registration_gates() {
    let h = hash_password("secret123").unwrap();
    assert!(login_gate(true, "secret123", &h).is_ok());
    let e = login_gate(false, "secret123", &h).unwrap_err();
    assert_eq!((e.status_code(), e.message_text()), (403, "user account is inactive"));
    assert!(login_gate(true, "nope", &h).is_err());
    let e = registration_gate(true).unwrap_err();
    assert_eq!((e.status_code(), e.message_text()), (409, "user with this email already exists"));
    assert!(registration_gate(false).is_ok());
}
