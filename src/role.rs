use vstd::prelude::*;

verus! {

/// The role of a user, stored as an integer code.
#[derive(Clone, Copy, Debug, PartialEq, Eq, Structural)]
pub enum Role {
    Admin,
    User,
    Guest,
}

/// The role that a stored integer code stands for, if any.
pub open spec fn role_of_code(code: int) -> Option<Role> {
    if code == 1 {
        Some(Role::Admin)
    } else if code == 2 {
        Some(Role::User)
    } else if code == 3 {
        Some(Role::Guest)
    } else {
        None
    }
}

/// The integer code under which a role is stored.
pub open spec fn code_of_role(role: Role) -> int {
    match role {
        Role::Admin => 1,
        Role::User => 2,
        Role::Guest => 3,
    }
}

/// Decoding with the fallback that the store applies: an unknown code reads as a guest.
pub open spec fn role_or_guest(code: int) -> Role {
    match role_of_code(code) {
        Some(r) => r,
        None => Role::Guest,
    }
}

impl Role {
    pub fn from_i32(value: i32) -> (r: Option<Role>)
        ensures
            r == role_of_code(value as int),
    {
        match value {
            1 => Some(Role::Admin),
            2 => Some(Role::User),
            3 => Some(Role::Guest),
            _ => None,
        }
    }

    pub fn to_i32(&self) -> (r: i32)
        ensures
            r as int == code_of_role(*self),
    {
        match self {
            Role::Admin => 1,
            Role::User => 2,
            Role::Guest => 3,
        }
    }

    /// Decodes a stored code, reading an unrecognised one as `Guest`.
    pub fn from_i32_or_guest(value: i32) -> (r: Role)
        ensures
            r == role_or_guest(value as int),
    {
        match Role::from_i32(value) {
            Some(r) => r,
            None => Role::Guest,
        }
    }
}

/// Each defined code decodes to a role that encodes back to the same code, every
/// role is stored under a defined code, and any other code decodes to nothing and
/// reads as a guest, stored as 3.
pub proof fn lemma_role_code_round_trip(code: int, role: Role)
    ensures
        1 <= code <= 3 ==> role_of_code(code) is Some && code_of_role(
            role_of_code(code)->Some_0,
        ) == code,
        role_of_code(code_of_role(role)) == Some(role),
        !(1 <= code <= 3) ==> role_of_code(code) is None && role_or_guest(code) == Role::Guest
            && code_of_role(role_or_guest(code)) == 3,
{
}

} // verus!
