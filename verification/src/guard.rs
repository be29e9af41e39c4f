use std::rc::Rc;

use vstd::prelude::*;

use crate::auth::{Claims, UserRole};
use crate::error::{ErrorKind, RequestError};
use crate::text::{skip_chars, starts_with};

verus! {

/// The `Debug` text of a list of roles, such as `[Employee, Admin]`.
pub open spec fn roles_debug(roles: Seq<UserRole>) -> Seq<char> {
    "["@ + roles_joined(roles) + "]"@
}

/// The variant names of the roles, separated by ", ".
pub open spec fn roles_joined(roles: Seq<UserRole>) -> Seq<char>
    decreases roles.len(),
{
    if roles.len() == 0 {
        seq![]
    } else if roles.len() == 1 {
        roles[0].debug_name()
    } else {
        roles_joined(roles.drop_last()) + ", "@ + roles.last().debug_name()
    }
}

/// "Access denied. Required roles: `roles`".
pub open spec fn denied_message(roles: Seq<UserRole>) -> Seq<char> {
    "Access denied. Required roles: "@ + roles_debug(roles)
}

/// Writes the `Debug` text of a list of roles.
pub fn roles_debug_text(roles: &Vec<UserRole>) -> (r: String)
    ensures
        r@ == roles_debug(roles@),
{
    let mut r = String::from_str("[");
    let n = roles.len();
    for i in 0..n
        invariant
            n == roles@.len(),
            r@ == "["@ + roles_joined(roles@.take(i as int)),
    {
        proof {
            assert(roles@.take(i + 1).drop_last() =~= roles@.take(i as int));
            assert(roles@.take(i + 1).last() == roles@[i as int]);
        }
        if i > 0 {
            r.append(", ");
        }
        r.append(roles[i].debug_name_text());
        proof {
            if i == 0 {
                assert(roles@.take(0) =~= Seq::<UserRole>::empty());
                assert(roles@.take(1)[0] == roles@[0]);
            }
            assert(r@ =~= "["@ + roles_joined(roles@.take(i + 1)));
        }
    }
    r.append("]");
    proof {
        assert(roles@.take(n as int) =~= roles@);
    }
    r
}

/// Admits a request only for accounts with one of the allowed roles.
#[derive(Debug)]
pub struct RoleGuardFactory {
    allowed_roles: Rc<Vec<UserRole>>,
}

impl RoleGuardFactory {
    /// The roles the guard admits.
    pub closed spec fn allowed(&self) -> Seq<UserRole> {
        self.allowed_roles@
    }

    pub fn new(roles: Vec<UserRole>) -> (g: RoleGuardFactory)
        ensures
            g.allowed() == roles@,
    {
        RoleGuardFactory { allowed_roles: Rc::new(roles) }
    }

    pub fn admin_only() -> (g: RoleGuardFactory)
        ensures
            g.allowed() == seq![UserRole::Admin],
    {
        let mut v = Vec::new();
        v.push(UserRole::Admin);
        Self::new(v)
    }

    pub fn all_employees() -> (g: RoleGuardFactory)
        ensures
            g.allowed() == seq![UserRole::Employee, UserRole::Admin],
    {
        let mut v = Vec::new();
        v.push(UserRole::Employee);
        v.push(UserRole::Admin);
        Self::new(v)
    }

    pub fn user_only() -> (g: RoleGuardFactory)
        ensures
            g.allowed() == seq![UserRole::User],
    {
        let mut v = Vec::new();
        v.push(UserRole::User);
        Self::new(v)
    }

    /// The roles the guard admits.
    pub fn allowed_roles(&self) -> (r: &Vec<UserRole>)
        ensures
            r@ == self.allowed(),
    {
        &*self.allowed_roles
    }

    /// Decides a request from the claims that authentication attached to it:
    /// without claims it is unauthorized, with a role outside the allowed
    /// ones it is forbidden, otherwise it passes.
    pub fn authorize(&self, claims: Option<&Claims>) -> (r: Result<(), RequestError>)
        ensures
            match claims {
                None => r matches Err(e) && e.is(ErrorKind::Unauthorized, "Authentication required"@),
                Some(c) => if self.allowed().contains(c.role) {
                    r is Ok
                } else {
                    r matches Err(e) && e.is(ErrorKind::Forbidden, denied_message(self.allowed()))
                },
            },
    {
        match claims {
            None => Err(RequestError::unauthorized("Authentication required")),
            Some(c) => {
                let roles: &Vec<UserRole> = &*self.allowed_roles;
                if c.has_any_role(roles.as_slice()) {
                    Ok(())
                } else {
                    let mut m = String::from_str("Access denied. Required roles: ");
                    let listed = roles_debug_text(roles);
                    m.append(listed.as_str());
                    Err(RequestError::Forbidden(m))
                }
            },
        }
    }
}

/// The state of a request's `Authorization` header.
#[derive(Debug)]
pub enum AuthHeader<'a> {
    /// No such header.
    Missing,
    /// A header whose value is not visible ASCII.
    Unreadable,
    /// The header's text.
    Text(&'a str),
}

/// What a readable `Authorization` header gives: the text after the
/// `Bearer ` scheme, or the refusal of another scheme.
pub open spec fn bearer_outcome(s: Seq<char>) -> Result<Seq<char>, (ErrorKind, Seq<char>)> {
    if s.len() >= 7 && s.take(7) == "Bearer "@ {
        Ok(s.skip(7))
    } else {
        Err((ErrorKind::Unauthorized, "Invalid Authorization scheme"@))
    }
}

/// Takes the token out of a bearer `Authorization` header.
pub fn bearer_token<'a>(header: AuthHeader<'a>) -> (r: Result<&'a str, RequestError>)
    ensures
        match header {
            AuthHeader::Missing => r matches Err(e) && e.is(ErrorKind::Unauthorized, "Missing Authorization header"@),
            AuthHeader::Unreadable => r matches Err(e) && e.is(ErrorKind::Unauthorized, "Invalid Authorization header"@),
            AuthHeader::Text(s) => match bearer_outcome(s@) {
                Ok(t) => r matches Ok(x) && x@ == t,
                Err((kind, message)) => r matches Err(e) && e.is(kind, message),
            },
        },
{
    match header {
        AuthHeader::Missing => Err(RequestError::unauthorized("Missing Authorization header")),
        AuthHeader::Unreadable => Err(RequestError::unauthorized("Invalid Authorization header")),
        AuthHeader::Text(s) => {
            let scheme = "Bearer ";
            proof {
                reveal_strlit("Bearer ");
            }
            if !starts_with(s, scheme) {
                return Err(RequestError::unauthorized("Invalid Authorization scheme"));
            }
            Ok(skip_chars(s, 7))
        },
    }
}

/// Admits a token only when the whitelist lookup succeeded and found it; a
/// failed lookup denies (fail-closed).
pub fn whitelist_verdict(lookup: Result<bool, RequestError>) -> (r: Result<(), RequestError>)
    ensures
        (lookup matches Ok(true)) ==> r is Ok,
        !(lookup matches Ok(true)) ==> (r matches Err(e) && e.is(ErrorKind::Unauthorized, "Token revoked"@)),
{
    let allowed = match lookup {
        Ok(found) => found,
        Err(_) => false,
    };
    if allowed {
        Ok(())
    } else {
        Err(RequestError::unauthorized("Token revoked"))
    }
}

/// A token sent as `Bearer <token>` is read back unchanged.
pub proof fn law_bearer_roundtrip(token: Seq<char>)
    ensures
        bearer_outcome("Bearer "@ + token) == Ok::<Seq<char>, (ErrorKind, Seq<char>)>(token),
{
    reveal_strlit("Bearer ");
    let s = "Bearer "@ + token;
    assert(s.take(7) =~= "Bearer "@);
    assert(s.skip(7) =~= token);
}

/// The admin-only guard admits the admin role and no other.
pub proof fn law_admin_only_admits_admins(g: RoleGuardFactory, role: UserRole)
    requires
        g.allowed() == seq![UserRole::Admin],
    ensures
        g.allowed().contains(role) <==> role == UserRole::Admin,
{
    if role == UserRole::Admin {
        assert(g.allowed()[0] == role);
    }
}

/// The employee guard admits employees and admins, not plain users.
pub proof fn law_all_employees_admits_staff(g: RoleGuardFactory, role: UserRole)
    requires
        g.allowed() == seq![UserRole::Employee, UserRole::Admin],
    ensures
        g.allowed().contains(role) <==> (role == UserRole::Employee || role == UserRole::Admin),
{
    if role == UserRole::Employee {
        assert(g.allowed()[0] == role);
    }
    if role == UserRole::Admin {
        assert(g.allowed()[1] == role);
    }
}

/// The user-only guard admits plain users and no staff.
pub proof fn law_user_only_admits_users(g: RoleGuardFactory, role: UserRole)
    requires
        g.allowed() == seq![UserRole::User],
    ensures
        g.allowed().contains(role) <==> role == UserRole::User,
{
    if role == UserRole::User {
        assert(g.allowed()[0] == role);
    }
}

/// A header that does not begin with `Bearer ` is refused, whatever follows.
pub proof fn law_other_schemes_refused(s: Seq<char>)
    requires
        !(s.len() >= 7 && s.take(7) == "Bearer "@),
    ensures
        bearer_outcome(s) == Err::<Seq<char>, (ErrorKind, Seq<char>)>(
            (ErrorKind::Unauthorized, "Invalid Authorization scheme"@),
        ),
{
}

} // verus!
