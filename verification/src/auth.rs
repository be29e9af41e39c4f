use vstd::prelude::*;
use vstd::utf8::encode_utf8;

use crate::error::{ErrorKind, RequestError};
use crate::text::{
    ascii_lowercase, ascii_uppercase, is_ascii_text, lowercase, same_text, to_lowercase, trim,
    trimmed,
};
use crate::validation::{
    email_shape, law_contact_texts_meaning, law_required_text_meaning, phone_shape,
    email_outcome, err_view, normalized_email, phone_number, phone_outcome, required_outcome,
    trimmed_required,
};

verus! {

/// The role of an account.
#[derive(Debug, Clone, Copy, PartialEq, Eq, Structural)]
pub enum UserRole {
    User,
    Employee,
    Admin,
}

/// The role named by a lowercase code, if any.
pub open spec fn role_of_code(code: Seq<char>) -> Option<UserRole> {
    if code == "user"@ {
        Some(UserRole::User)
    } else if code == "employee"@ {
        Some(UserRole::Employee)
    } else if code == "admin"@ {
        Some(UserRole::Admin)
    } else {
        None
    }
}

/// The role a code names, case ignored: the code is lowercased as
/// `str::to_lowercase` does, which for an ASCII code lowercases its letters.
pub open spec fn role_read(value: Seq<char>) -> Option<UserRole> {
    if is_ascii_text(value) {
        role_of_code(ascii_lowercase(value))
    } else {
        role_of_code(lowercase(value))
    }
}

/// "Unknown role: `value`".
pub open spec fn unknown_role_message(value: Seq<char>) -> Seq<char> {
    "Unknown role: "@ + value
}

impl UserRole {
    /// The lowercase code of the role.
    pub open spec fn code(self) -> Seq<char> {
        match self {
            UserRole::User => "user"@,
            UserRole::Employee => "employee"@,
            UserRole::Admin => "admin"@,
        }
    }

    /// The name of the role's variant, as `Debug` writes it.
    pub open spec fn debug_name(self) -> Seq<char> {
        match self {
            UserRole::User => "User"@,
            UserRole::Employee => "Employee"@,
            UserRole::Admin => "Admin"@,
        }
    }

    pub fn has_role(&self, role: UserRole) -> (r: bool)
        ensures
            r == (*self == role),
    {
        *self == role
    }

    pub fn as_str(&self) -> (r: &'static str)
        ensures
            r@ == self.code(),
    {
        match self {
            UserRole::User => "user",
            UserRole::Employee => "employee",
            UserRole::Admin => "admin",
        }
    }

    /// The code of the role as an owned text (what `Display` and
    /// `From<UserRole> for String` give).
    pub fn to_code_string(&self) -> (r: String)
        ensures
            r@ == self.code(),
    {
        String::from_str(self.as_str())
    }

    /// The role for an already lowercased code.
    pub fn from_code(code: &str) -> (r: Option<UserRole>)
        ensures
            r == role_of_code(code@),
    {
        if same_text(code, "user") {
            Some(UserRole::User)
        } else if same_text(code, "employee") {
            Some(UserRole::Employee)
        } else if same_text(code, "admin") {
            Some(UserRole::Admin)
        } else {
            None
        }
    }

    /// Reads a role code, ignoring case.
    pub fn try_from(value: &str) -> (r: Result<UserRole, String>)
        ensures
            match role_read(value@) {
                Some(role) => r == Ok::<UserRole, String>(role),
                None => r matches Err(m) && m@ == unknown_role_message(value@),
            },
    {
        let lowered = to_lowercase(value);
        match UserRole::from_code(lowered.as_str()) {
            Some(role) => Ok(role),
            None => {
                let mut m = String::from_str("Unknown role: ");
                m.append(value);
                Err(m)
            },
        }
    }

    /// Reads a role code from a stored row; an unknown code is an
    /// unprocessable entity.
    pub fn from_row_code(code: &str) -> (r: Result<UserRole, RequestError>)
        ensures
            match role_read(code@) {
                Some(role) => r == Ok::<UserRole, RequestError>(role),
                None => r matches Err(e) && e.is(
                    ErrorKind::UnprocessableEntity,
                    unknown_role_message(code@),
                ),
            },
    {
        match UserRole::try_from(code) {
            Ok(role) => Ok(role),
            Err(m) => Err(RequestError::UnprocessableEntity(m)),
        }
    }

    /// The role's variant name, as `Debug` writes it.
    pub fn debug_name_text(&self) -> (r: &'static str)
        ensures
            r@ == self.debug_name(),
    {
        match self {
            UserRole::User => "User",
            UserRole::Employee => "Employee",
            UserRole::Admin => "Admin",
        }
    }
}

/// The payload of an access token.
#[derive(Debug, Clone)]
pub struct Claims {
    /// The user's id.
    pub sub: u128,
    pub role: UserRole,
    /// Expiry, in seconds since 1970-01-01T00:00:00Z.
    pub exp: usize,
    /// The token's own id.
    pub jti: String,
}

impl Claims {
    pub fn has_any_role(&self, roles: &[UserRole]) -> (r: bool)
        ensures
            r == roles@.contains(self.role),
    {
        let n = roles.len();
        for i in 0..n
            invariant
                n == roles@.len(),
                forall|j: int| 0 <= j < i ==> roles@[j] != self.role,
        {
            if roles[i] == self.role {
                proof {
                    assert(roles@[i as int] == self.role);
                }
                return true;
            }
        }
        false
    }

    pub fn has_role(&self, role: UserRole) -> (r: bool)
        ensures
            r == (self.role == role),
    {
        self.role.has_role(role)
    }
}

/// "password must contain from 8 to 128 characters".
pub open spec fn password_message() -> Seq<char> {
    "password must contain from 8 to 128 characters"@
}

/// The length in bytes of the UTF-8 encoding of a text, as `str::len` reports it.
pub open spec fn byte_len(s: Seq<char>) -> usize {
    encode_utf8(s).len() as usize
}

/// The trimmed password, when its UTF-8 length lies between 8 and 128 bytes.
pub open spec fn password_outcome(password: Seq<char>) -> Result<Seq<char>, (ErrorKind, Seq<char>)> {
    let p = trimmed(password);
    if 8 <= byte_len(p) <= 128 {
        Ok(p)
    } else {
        Err((ErrorKind::UnprocessableEntity, password_message()))
    }
}

fn valid_password(password: &str) -> (r: Result<String, RequestError>)
    ensures
        match password_outcome(password@) {
            Ok(p) => r matches Ok(s) && s@ == p,
            Err(ev) => r matches Err(e) && err_view(e) == ev,
        },
{
    let p = trim(password);
    let n = p.len();
    if n < 8 || n > 128 {
        return Err(RequestError::unprocessable_entity("password must contain from 8 to 128 characters"));
    }
    Ok(String::from_str(p))
}

#[derive(Debug)]
pub struct RegisterRequest {
    pub email: String,
    pub password: String,
    pub full_name: String,
    pub phone: Option<String>,
}

#[derive(Debug)]
pub struct RegisterRequestValid {
    pub email: String,
    pub password: String,
    pub full_name: String,
    pub phone: Option<String>,
}

/// The view of a text option.
pub open spec fn opt_view(o: Option<String>) -> Option<Seq<char>> {
    match o {
        Some(s) => Some(s@),
        None => None,
    }
}

/// The fields of a valid registration (e-mail, password, full name, phone),
/// or the first error, checking the password, the e-mail, the full name and
/// the phone in that order.
pub open spec fn register_outcome(
    email: Seq<char>,
    password: Seq<char>,
    full_name: Seq<char>,
    phone: Option<Seq<char>>,
) -> Result<(Seq<char>, Seq<char>, Seq<char>, Option<Seq<char>>), (ErrorKind, Seq<char>)> {
    match password_outcome(password) {
        Err(ev) => Err(ev),
        Ok(p) => match email_outcome(email, "email"@) {
            Err(ev) => Err(ev),
            Ok(e) => match required_outcome(full_name, "full_name"@, 3, 255) {
                Err(ev) => Err(ev),
                Ok(n) => match phone {
                    None => Ok((e, p, n, None)),
                    Some(ph) => match phone_outcome(ph, "phone"@) {
                        Err(ev) => Err(ev),
                        Ok(t) => Ok((e, p, n, Some(t))),
                    },
                },
            },
        },
    }
}

impl RegisterRequestValid {
    pub fn try_from(value: RegisterRequest) -> (r: Result<RegisterRequestValid, RequestError>)
        ensures
            match register_outcome(value.email@, value.password@, value.full_name@, opt_view(value.phone)) {
                Ok((e, p, n, ph)) => r matches Ok(v) && v.email@ == e && v.password@ == p
                    && v.full_name@ == n && opt_view(v.phone) == ph,
                Err(ev) => r matches Err(err) && err_view(err) == ev,
            },
    {
        let password = valid_password(value.password.as_str())?;
        let email = normalized_email(value.email.as_str(), "email")?;
        let full_name = trimmed_required(value.full_name.as_str(), "full_name", 3, 255)?;
        let phone = match value.phone {
            Some(phone) => Some(phone_number(phone.as_str(), "phone")?),
            None => None,
        };
        Ok(RegisterRequestValid { email, password, full_name, phone })
    }
}

#[derive(Debug)]
pub struct LoginRequest {
    pub email: String,
    pub password: String,
}

#[derive(Debug)]
pub struct LoginRequestValid {
    pub email: String,
    pub password: String,
}

/// The e-mail and password of a valid login, or the first error, checking
/// the password before the e-mail.
pub open spec fn login_outcome(email: Seq<char>, password: Seq<char>) -> Result<
    (Seq<char>, Seq<char>),
    (ErrorKind, Seq<char>),
> {
    match password_outcome(password) {
        Err(ev) => Err(ev),
        Ok(p) => match email_outcome(email, "email"@) {
            Err(ev) => Err(ev),
            Ok(e) => Ok((e, p)),
        },
    }
}

impl LoginRequestValid {
    pub fn try_from(value: LoginRequest) -> (r: Result<LoginRequestValid, RequestError>)
        ensures
            match login_outcome(value.email@, value.password@) {
                Ok((e, p)) => r matches Ok(v) && v.email@ == e && v.password@ == p,
                Err(ev) => r matches Err(err) && err_view(err) == ev,
            },
    {
        let password = valid_password(value.password.as_str())?;
        let email = normalized_email(value.email.as_str(), "email")?;
        Ok(LoginRequestValid { email, password })
    }
}

/// Every role's code reads back as that role, in lowercase and in
/// uppercase alike; a code that names no role reads as none.
pub proof fn law_role_codes_read_back(role: UserRole)
    ensures
        role_read(role.code()) == Some(role),
        role_read(ascii_uppercase(role.code())) == Some(role),
        role_read("manager"@) is None,
{
    reveal_strlit("user");
    reveal_strlit("employee");
    reveal_strlit("admin");
    reveal_strlit("manager");
    law_role_code_roundtrip(role);
    let c = role.code();
    let u = ascii_uppercase(c);
    assert(is_ascii_text(c));
    assert(is_ascii_text(u));
    assert(ascii_lowercase(c) =~= c);
    assert(ascii_lowercase(u) =~= c);
    let m = "manager"@;
    assert(is_ascii_text(m));
    assert(ascii_lowercase(m) =~= m);
    assert(m.len() == 7);
}

/// Each role is read back from its own code, so codes tell roles apart.
pub proof fn law_role_code_roundtrip(role: UserRole)
    ensures
        role_of_code(role.code()) == Some(role),
{
    reveal_strlit("user");
    reveal_strlit("employee");
    reveal_strlit("admin");
    assert("user"@.len() == 4);
    assert("employee"@.len() == 8);
    assert("admin"@.len() == 5);
}

/// Registration accepts a request exactly when each field is acceptable on
/// its own, and then keeps each field's own checked text in its own place:
/// the trimmed e-mail lowercased, the trimmed password, the trimmed full
/// name and the trimmed phone number, if one was given.
pub proof fn law_register_keeps_given_fields(
    email: Seq<char>,
    password: Seq<char>,
    full_name: Seq<char>,
    phone: Option<Seq<char>>,
)
    ensures
        register_outcome(email, password, full_name, phone) is Ok <==> (8 <= byte_len(trimmed(password))
            <= 128 && email_shape(lowercase(trimmed(email))) && 3 <= trimmed(full_name).len() <= 255
            && (match phone {
            None => true,
            Some(ph) => phone_shape(trimmed(ph)),
        })),
        register_outcome(email, password, full_name, phone) matches Ok(t) ==> t == (
            lowercase(trimmed(email)),
            trimmed(password),
            trimmed(full_name),
            match phone {
                None => None,
                Some(ph) => Some(trimmed(ph)),
            },
        ),
{
    law_required_text_meaning(full_name, "full_name"@, 3, 255);
    law_contact_texts_meaning(email, "email"@);
    match phone {
        Some(ph) => law_contact_texts_meaning(ph, "phone"@),
        None => {},
    }
}

/// A login is accepted exactly when the trimmed password has 8 to 128 bytes
/// and the address is an e-mail address, and then carries the lowercased
/// trimmed address and the trimmed password.
pub proof fn law_login_keeps_given_fields(email: Seq<char>, password: Seq<char>)
    ensures
        login_outcome(email, password) is Ok <==> (8 <= byte_len(trimmed(password)) <= 128
            && email_shape(lowercase(trimmed(email)))),
        login_outcome(email, password) matches Ok(t) ==> t == (lowercase(trimmed(email)), trimmed(password)),
{
    law_contact_texts_meaning(email, "email"@);
}

} // verus!
