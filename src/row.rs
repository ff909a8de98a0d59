use vstd::prelude::*;
use crate::role::{Role, code_of_role, role_or_guest};
use crate::runtime::now_micros;
use crate::user::Users;

verus! {

/// A user as a row of the users table reads back: the role as its raw code, and
/// timestamps that the column types allow to be null.
#[derive(Clone, Debug)]
pub struct UserRow {
    pub id: u128,
    pub nom: String,
    pub prenom: String,
    pub email: String,
    pub password: String,
    pub telephone: String,
    pub role: i32,
    pub created_at: Option<i64>,
    pub updated_at: Option<i64>,
}

/// A timestamp column, with a null read as `now`.
pub open spec fn stamp_or(ts: Option<i64>, now: i64) -> i64 {
    match ts {
        Some(t) => t,
        None => now,
    }
}

/// The user that a row stands for, with null timestamps read as `now`.
pub open spec fn user_from_row(row: UserRow, now: i64) -> Users {
    Users {
        id: row.id,
        nom: row.nom,
        prenom: row.prenom,
        email: row.email,
        password: row.password,
        telephone: row.telephone,
        role: role_or_guest(row.role as int),
        created_at: stamp_or(row.created_at, now),
        updated_at: stamp_or(row.updated_at, now),
    }
}

impl UserRow {
    /// The user that this row stands for; a null timestamp reads as the time `now`.
    pub fn into_user_at(self, now: i64) -> (r: Users)
        ensures
            r == user_from_row(self, now),
    {
        let created_at = match self.created_at {
            Some(t) => t,
            None => now,
        };
        let updated_at = match self.updated_at {
            Some(t) => t,
            None => now,
        };
        Users {
            id: self.id,
            nom: self.nom,
            prenom: self.prenom,
            email: self.email,
            password: self.password,
            telephone: self.telephone,
            role: Role::from_i32_or_guest(self.role),
            created_at,
            updated_at,
        }
    }

    /// The user that this row stands for; a null timestamp reads as the current time.
    pub fn into_user(self) -> (r: Users)
        ensures
            exists|now: i64| now >= 0 && r == user_from_row(self, now),
    {
        let now = now_micros();
        self.into_user_at(now)
    }
}

/// A stored row whose role code is none of the defined ones reads as a guest,
/// stored again as code 3, whatever the time used for null timestamps.
pub proof fn lemma_unknown_code_reads_guest(row: UserRow, now: i64)
    requires
        !(1 <= row.role <= 3),
    ensures
        user_from_row(row, now).role == Role::Guest,
        code_of_role(user_from_row(row, now).role) == 3,
{
}

} // verus!
