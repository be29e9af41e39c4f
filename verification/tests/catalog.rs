use server::catalog::{
    clamp_stock, optional_trimmed_required, CategoryCreateRequest, CategoryCreateRequestValid,
    CategoryRow, CategoryUpdateRequest, CategoryUpdateRequestValid, ProductCategoryResponse,
    ServiceCategoryResponse,
};
use server::paging::{page_offset, page_or_default, page_total, per_page_or_default, search_pattern};
use server::users::{revokes_tokens, UsersFilterParams};
use server::auth::UserRole;

#[test]
fn category_create() {
    let v = CategoryCreateRequestValid::try_from(CategoryCreateRequest {
        name: " Hair ".to_string(),
        description: Some(" cuts ".to_string()),
    })
    .unwrap();
    assert_eq!((v.name.as_str(), v.description.as_deref()), ("Hair", Some("cuts")));
    let e = CategoryCreateRequestValid::try_from(CategoryCreateRequest { name: "H".to_string(), description: None })
        .unwrap_err();
    assert_eq!(e.message_text(), "name must contain from 2 to 128 characters");
}

#[test]
fn category_update() {
    let v = CategoryUpdateRequestValid::try_from(CategoryUpdateRequest { name: None, description: None }).unwrap();
    assert!(v.name.is_none() && v.description.is_none());
    assert!(CategoryUpdateRequestValid::try_from(CategoryUpdateRequest {
        name: Some(" ".to_string()),
        description: None
    })
    .is_err());
    assert_eq!(optional_trimmed_required(Some(" ab ".to_string()), "sku", 2, 64).unwrap(), Some("ab".to_string()));
}

#[test]
fn category_responses() {
    let s = ServiceCategoryResponse::from_row(CategoryRow { id: 9, name: "A".to_string(), description: None });
    assert_eq!((s.id, s.name.as_str()), (9, "A"));
    let p = ProductCategoryResponse::from_row(CategoryRow { id: 8, name: "B".to_string(), description: Some("d".to_string()) });
    assert_eq!(p.description.as_deref(), Some("d"));
}

#[test]
fn stock_is_clamped() {
    assert_eq!(clamp_stock(-3), 0);
    assert_eq!(clamp_stock(0), 0);
    assert_eq!(clamp_stock(12), 12);
}

#[test]
fn paging_defaults_and_offsets() {
    assert_eq!(page_or_default(None), 1);
    assert_eq!(per_page_or_default(None), 20);
    assert_eq!(page_or_default(Some(3)), 3);
    assert_eq!(page_offset(1, 20), 0);
    assert_eq!(page_offset(0, 20), 0);
    assert_eq!(page_offset(3, 20), 40);
    assert_eq!(page_offset(4, 20) - page_offset(3, 20), 20);
}

#[test]
fn search_patterns() {
    assert_eq!(search_pattern(&None), None);
    assert_eq!(search_pattern(&Some("   ".to_string())), None);
    assert_eq!(search_pattern(&Some(" cut ".to_string())), Some("%cut%".to_string()));
}

#[test]
fn totals_from_first_row() {
    assert_eq!(page_total(&[]), 0);
    assert_eq!(page_total(&[None, Some(3)]), 0);
    assert_eq!(page_total(&[Some(42), Some(42)]), 42);
}

#[test]
fn user_filters() {
    let f = UsersFilterParams { page: None, per_page: Some(5), search: None, role: Some(UserRole::Employee), is_active: None };
    assert_eq!((f.page(), f.per_page()), (1, 5));
    assert_eq!(f.role_code(), Some("employee"));
    assert!(revokes_tokens(false));
    assert!(!revokes_tokens(true));
}
