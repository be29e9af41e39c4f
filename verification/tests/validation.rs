use server::error::RequestError;
use server::validation::{
    normalized_email, phone_number, positive_i32, trimmed_optional, trimmed_required,
};

fn unprocessable(e: &RequestError) -> bool {
    e.status_code() == 422
}

#[test]
fn trimmed_required_trims_and_accepts() {
    let r = trimmed_required("  Alice Smith \n", "full_name", 3, 255).unwrap();
    assert_eq!(r, "Alice Smith");
}

#[test]
fn trimmed_required_counts_characters_not_bytes() {
    // "Олег" has 4 characters and 8 bytes.
    assert_eq!(trimmed_required("Олег", "name", 2, 4).unwrap(), "Олег");
}

#[test]
fn trimmed_required_too_short() {
    let e = trimmed_required("  ab  ", "full_name", 3, 255).unwrap_err();
    assert!(unprocessable(&e));
    assert_eq!(e.message_text(), "full_name must contain from 3 to 255 characters");
}

#[test]
fn trimmed_required_too_long() {
    let e = trimmed_required("abcdef", "sku", 2, 5).unwrap_err();
    assert_eq!(e.message_text(), "sku must contain from 2 to 5 characters");
}

#[test]
fn trimmed_required_is_idempotent_on_example() {
    let once = trimmed_required("  Main street 5 ", "delivery_address", 5, 500).unwrap();
    let twice = trimmed_required(&once, "delivery_address", 5, 500).unwrap();
    assert_eq!(once, twice);
}

#[test]
fn trimmed_optional_cases() {
    assert_eq!(trimmed_optional(None, "comment", 10).unwrap(), None);
    assert_eq!(trimmed_optional(Some("   ".to_string()), "comment", 10).unwrap(), None);
    assert_eq!(
        trimmed_optional(Some(" hi ".to_string()), "comment", 10).unwrap(),
        Some("hi".to_string())
    );
    let e = trimmed_optional(Some("x".repeat(11)), "comment", 10).unwrap_err();
    assert_eq!(e.message_text(), "comment must contain at most 10 characters");
    assert!(unprocessable(&e));
}

#[test]
fn positive_i32_cases() {
    assert_eq!(positive_i32(3, "quantity").unwrap(), 3);
    let e = positive_i32(0, "quantity").unwrap_err();
    assert_eq!(e.message_text(), "quantity must be greater than zero");
    assert!(positive_i32(-5, "quantity").is_err());
}

#[test]
fn email_is_trimmed_and_lowercased() {
    assert_eq!(
        normalized_email("  John.Doe@Example.COM ", "email").unwrap(),
        "john.doe@example.com"
    );
}

#[test]
fn email_shapes_refused() {
    for bad in ["", "plain", "@example.com", "a@b", "a@.com", "a@com.", "a@@b.com", "a b@c.com", "a@b@c.com"] {
        let e = normalized_email(bad, "email").unwrap_err();
        assert_eq!(e.message_text(), "email must be a valid email address");
        assert!(unprocessable(&e));
    }
}

#[test]
fn phone_number_cases() {
    assert_eq!(phone_number(" +38 (050) 123-45-67 ", "phone").unwrap(), "+38 (050) 123-45-67");
    assert_eq!(phone_number("0501234567", "phone").unwrap(), "0501234567");
    let e = phone_number("12345", "phone").unwrap_err();
    assert_eq!(e.message_text(), "phone must be a valid phone number");
    assert!(phone_number("050-123-45-6x", "phone").is_err());
    assert!(phone_number("+1234567890123456", "phone").is_err());
}
