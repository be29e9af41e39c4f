use server::catalog::{check_product_create, check_product_update, check_service_create, check_service_update};
use server::error::{ErrorKind, RequestError};
use server::validation::non_negative_error;

fn kind_of(e: &RequestError) -> ErrorKind {
    match e {
        RequestError::Unauthorized(_) => ErrorKind::Unauthorized,
        RequestError::Forbidden(_) => ErrorKind::Forbidden,
        RequestError::NotFound(_) => ErrorKind::NotFound,
        RequestError::Conflict(_) => ErrorKind::Conflict,
        RequestError::UnprocessableEntity(_) => ErrorKind::UnprocessableEntity,
        RequestError::InternalServerError(_) => ErrorKind::InternalServerError,
    }
}

#[test]
fn service_fields_are_trimmed_and_kept() {
    let f = check_service_create(" Haircut ", Some("  short  ".to_string()), Ok(()), 45).unwrap();
    assert_eq!(f.name, "Haircut");
    assert_eq!(f.description.as_deref(), Some("short"));
    assert_eq!(f.duration_minutes, 45);
}

#[test]
fn service_errors_come_in_field_order() {
    let price = Err(non_negative_error("base_price"));
    let e = check_service_create("H", None, price, 0).unwrap_err();
    assert_eq!(e.message_text(), "name must contain from 2 to 255 characters");

    let e = check_service_create("Haircut", None, Err(non_negative_error("base_price")), 0).unwrap_err();
    assert_eq!(e.message_text(), "base_price must be greater than or equal to zero");
    assert_eq!(kind_of(&e), ErrorKind::UnprocessableEntity);

    let e = check_service_create("Haircut", None, Ok(()), 0).unwrap_err();
    assert_eq!(e.message_text(), "duration_minutes must be greater than zero");

    let long = "d".repeat(4001);
    let e = check_service_create("Haircut", Some(long), Ok(()), 30).unwrap_err();
    assert_eq!(e.message_text(), "description must contain at most 4000 characters");
}

#[test]
fn service_update_checks_only_given_fields() {
    let f = check_service_update(None, None, Ok(()), None).unwrap();
    assert!(f.name.is_none() && f.description.is_none() && f.duration_minutes.is_none());

    let f = check_service_update(Some(" Massage ".to_string()), Some("   ".to_string()), Ok(()), Some(90)).unwrap();
    assert_eq!(f.name.as_deref(), Some("Massage"));
    assert!(f.description.is_none());
    assert_eq!(f.duration_minutes, Some(90));

    let e = check_service_update(None, None, Ok(()), Some(-5)).unwrap_err();
    assert_eq!(e.message_text(), "duration_minutes must be greater than zero");
}

#[test]
fn product_stock_below_zero_becomes_zero() {
    let f = check_product_create(" SKU-1 ", " Shampoo ", None, Ok(()), -3).unwrap();
    assert_eq!((f.sku.as_str(), f.name.as_str(), f.stock_qty), ("SKU-1", "Shampoo", 0));
    let f = check_product_create("SKU-1", "Shampoo", None, Ok(()), 12).unwrap();
    assert_eq!(f.stock_qty, 12);
}

#[test]
fn product_errors_come_in_field_order() {
    let e = check_product_create("S", "x", None, Err(non_negative_error("unit_price")), 1).unwrap_err();
    assert_eq!(e.message_text(), "sku must contain from 2 to 64 characters");
    let e = check_product_create("SKU", "x", None, Err(non_negative_error("unit_price")), 1).unwrap_err();
    assert_eq!(e.message_text(), "name must contain from 2 to 255 characters");
    let e = check_product_create("SKU", "Shampoo", None, Err(non_negative_error("unit_price")), 1).unwrap_err();
    assert_eq!(e.message_text(), "unit_price must be greater than or equal to zero");
}

#[test]
fn product_update_clamps_a_given_stock() {
    let f = check_product_update(None, Some("Soap".to_string()), None, Ok(()), Some(-1)).unwrap();
    assert_eq!(f.name.as_deref(), Some("Soap"));
    assert_eq!(f.stock_qty, Some(0));
    let f = check_product_update(None, None, None, Ok(()), None).unwrap();
    assert!(f.sku.is_none() && f.stock_qty.is_none());
    let e = check_product_update(Some("S".to_string()), None, None, Ok(()), None).unwrap_err();
    assert_eq!(e.message_text(), "sku must contain from 2 to 64 characters");
}
