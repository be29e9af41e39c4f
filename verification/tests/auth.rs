use server::auth::{
    Claims, LoginRequest, LoginRequestValid, RegisterRequest, RegisterRequestValid, UserRole,
};
use server::guard::{bearer_token, whitelist_verdict, AuthHeader, RoleGuardFactory};
use server::error::RequestError;

fn claims(role: UserRole) -> Claims {
    Claims { sub: 7, role, exp: 2_000_000_000, jti: "token-1".to_string() }
}

#[test]
fn role_codes() {
    assert_eq!(UserRole::User.as_str(), "user");
    assert_eq!(UserRole::Employee.as_str(), "employee");
    assert_eq!(UserRole::Admin.as_str(), "admin");
    assert_eq!(UserRole::Admin.to_code_string(), "admin");
}

#[test]
fn role_parse_ignores_case() {
    assert_eq!(UserRole::try_from("ADMIN"), Ok(UserRole::Admin));
    assert_eq!(UserRole::try_from("Employee"), Ok(UserRole::Employee));
    assert_eq!(UserRole::try_from("user"), Ok(UserRole::User));
}

#[test]
fn role_parse_unknown() {
    assert_eq!(UserRole::try_from("Manager"), Err("Unknown role: Manager".to_string()));
    let e = UserRole::from_row_code("root").unwrap_err();
    assert_eq!(e.status_code(), 422);
    assert_eq!(e.message_text(), "Unknown role: root");
}

#[test]
fn role_code_roundtrip_on_all_roles() {
    for role in [UserRole::User, UserRole::Employee, UserRole::Admin] {
        assert_eq!(UserRole::from_code(role.as_str()), Some(role));
    }
    assert_eq!(UserRole::from_code("Admin"), None);
}

#[test]
fn has_role_and_any_role() {
    assert!(UserRole::Admin.has_role(UserRole::Admin));
    assert!(!UserRole::Admin.has_role(UserRole::User));
    let c = claims(UserRole::Employee);
    assert!(c.has_role(UserRole::Employee));
    assert!(c.has_any_role(&[UserRole::Employee, UserRole::Admin]));
    assert!(!c.has_any_role(&[UserRole::User]));
    assert!(!c.has_any_role(&[]));
}

#[test]
fn guards_admit_their_roles() {
    let admin = RoleGuardFactory::admin_only();
    assert!(admin.authorize(Some(&claims(UserRole::Admin))).is_ok());
    let e = admin.authorize(Some(&claims(UserRole::User))).unwrap_err();
    assert_eq!(e.status_code(), 403);
    assert_eq!(e.message_text(), "Access denied. Required roles: [Admin]");

    let staff = RoleGuardFactory::all_employees();
    assert!(staff.authorize(Some(&claims(UserRole::Employee))).is_ok());
    assert!(staff.authorize(Some(&claims(UserRole::Admin))).is_ok());
    let e = staff.authorize(Some(&claims(UserRole::User))).unwrap_err();
    assert_eq!(e.message_text(), "Access denied. Required roles: [Employee, Admin]");

    let users = RoleGuardFactory::user_only();
    assert!(users.authorize(Some(&claims(UserRole::User))).is_ok());
    assert!(users.authorize(Some(&claims(UserRole::Admin))).is_err());
    assert_eq!(users.allowed_roles(), &vec![UserRole::User]);
}

#[test]
fn guard_without_claims_is_unauthorized() {
    let e = RoleGuardFactory::new(vec![]).authorize(None).unwrap_err();
    assert_eq!(e.status_code(), 401);
    assert_eq!(e.message_text(), "Authentication required");
    let e = RoleGuardFactory::new(vec![]).authorize(Some(&claims(UserRole::Admin))).unwrap_err();
    assert_eq!(e.message_text(), "Access denied. Required roles: []");
}

#[test]
fn bearer_header_cases() {
    assert_eq!(bearer_token(AuthHeader::Text("Bearer abc.def")).unwrap(), "abc.def");
    assert_eq!(bearer_token(AuthHeader::Text("Bearer ")).unwrap(), "");
    let e = bearer_token(AuthHeader::Missing).unwrap_err();
    assert_eq!((e.status_code(), e.message_text()), (401, "Missing Authorization header"));
    let e = bearer_token(AuthHeader::Unreadable).unwrap_err();
    assert_eq!(e.message_text(), "Invalid Authorization header");
    let e = bearer_token(AuthHeader::Text("Basic abc")).unwrap_err();
    assert_eq!(e.message_text(), "Invalid Authorization scheme");
    assert!(bearer_token(AuthHeader::Text("bearer abc")).is_err());
    assert!(bearer_token(AuthHeader::Text("Bearer")).is_err());
}

#[test]
fn whitelist_fails_closed() {
    assert!(whitelist_verdict(Ok(true)).is_ok());
    let e = whitelist_verdict(Ok(false)).unwrap_err();
    assert_eq!((e.status_code(), e.message_text()), (401, "Token revoked"));
    let e = whitelist_verdict(Err(RequestError::internal_server_error("redis down"))).unwrap_err();
    assert_eq!(e.message_text(), "Token revoked");
}

fn register(email: &str, password: &str, name: &str, phone: Option<&str>) -> Result<RegisterRequestValid, RequestError> {
    RegisterRequestValid::try_from(RegisterRequest {
        email: email.to_string(),
        password: password.to_string(),
        full_name: name.to_string(),
        phone: phone.map(|p| p.to_string()),
    })
}

#[test]
fn register_request_valid() {
    let v = register(" Ann@Mail.com ", "  secret123 ", " Ann Lee ", Some(" 0501234567 ")).unwrap();
    assert_eq!(v.email, "ann@mail.com");
    assert_eq!(v.password, "secret123");
    assert_eq!(v.full_name, "Ann Lee");
    assert_eq!(v.phone, Some("0501234567".to_string()));
    assert_eq!(register("ann@mail.com", "secret123", "Ann", None).unwrap().phone, None);
}

#[test]
fn register_request_errors_in_order() {
    let e = register("bad", "short", "A", Some("1")).unwrap_err();
    assert_eq!(e.message_text(), "password must contain from 8 to 128 characters");
    let e = register("bad", "longenough", "A", Some("1")).unwrap_err();
    assert_eq!(e.message_text(), "email must be a valid email address");
    let e = register("a@b.co", "longenough", "A", Some("1")).unwrap_err();
    assert_eq!(e.message_text(), "full_name must contain from 3 to 255 characters");
    let e = register("a@b.co", "longenough", "Ann", Some("1")).unwrap_err();
    assert_eq!(e.message_text(), "phone must be a valid phone number");
    assert!(register("a@b.co", &"p".repeat(129), "Ann", None).is_err());
    assert!(register("a@b.co", &"p".repeat(128), "Ann", None).is_ok());
}

#[test]
fn password_length_counts_bytes() {
    // four two-byte letters make eight bytes
    assert!(register("a@b.co", "пароль", "Ann", None).is_ok());
    assert!(register("a@b.co", "пар", "Ann", None).is_err());
}

#[test]
fn login_request_cases() {
    let v = LoginRequestValid::try_from(LoginRequest {
        email: "USER@site.org".to_string(),
        password: " password1 ".to_string(),
    })
    .unwrap();
    assert_eq!((v.email.as_str(), v.password.as_str()), ("user@site.org", "password1"));
    let e = LoginRequestValid::try_from(LoginRequest {
        email: "USER@site.org".to_string(),
        password: "1234567".to_string(),
    })
    .unwrap_err();
    assert_eq!(e.status_code(), 422);
}
