use vstd::prelude::*;
use crate::role::{Role, role_or_guest};
use crate::runtime::now_micros;

verus! {

/// A stored user. The identifier is a UUID held as its 128 bits; times are
/// microseconds since the Unix epoch. The password is kept as given, in plain text.
#[derive(Clone, Debug)]
pub struct Users {
    pub id: u128,
    pub nom: String,
    pub prenom: String,
    pub email: String,
    pub password: String,
    pub telephone: String,
    pub role: Role,
    pub created_at: i64,
    pub updated_at: i64,
}

/// The payload from which a user is created. `role` is the raw integer code;
/// `created_user` is carried with the payload and never read.
#[derive(Clone, Debug)]
pub struct CreateUser {
    pub nom: String,
    pub prenom: String,
    pub email: String,
    pub password: String,
    pub telephone: String,
    pub role: i32,
    pub created_user: u128,
}

/// The user that a payload becomes under identifier `id` at time `now`.
pub open spec fn user_from_payload(id: u128, payload: CreateUser, now: i64) -> Users {
    Users {
        id,
        nom: payload.nom,
        prenom: payload.prenom,
        email: payload.email,
        password: payload.password,
        telephone: payload.telephone,
        role: role_or_guest(payload.role as int),
        created_at: now,
        updated_at: now,
    }
}

impl Users {
    /// A user built from a payload, stamped with the current time.
    pub fn new(id: u128, create_user: CreateUser) -> (r: Users)
        ensures
            r.id == id,
            r.nom == create_user.nom,
            r.prenom == create_user.prenom,
            r.email == create_user.email,
            r.password == create_user.password,
            r.telephone == create_user.telephone,
            r.role == role_or_guest(create_user.role as int),
            r.created_at == r.updated_at,
            r.created_at >= 0,
    {
        let now = now_micros();
        Users::new_at(id, create_user, now)
    }

    /// A user built from a payload, stamped with the time `now`.
    pub fn new_at(id: u128, create_user: CreateUser, now: i64) -> (r: Users)
        ensures
            r == user_from_payload(id, create_user, now),
    {
        Users {
            id,
            nom: create_user.nom,
            prenom: create_user.prenom,
            email: create_user.email,
            password: create_user.password,
            telephone: create_user.telephone,
            role: Role::from_i32_or_guest(create_user.role),
            created_at: now,
            updated_at: now,
        }
    }

    /// A field-for-field copy.
    pub fn duplicate(&self) -> (r: Users)
        ensures
            r == *self,
    {
        Users {
            id: self.id,
            nom: self.nom.clone(),
            prenom: self.prenom.clone(),
            email: self.email.clone(),
            password: self.password.clone(),
            telephone: self.telephone.clone(),
            role: self.role,
            created_at: self.created_at,
            updated_at: self.updated_at,
        }
    }
}

} // verus!
