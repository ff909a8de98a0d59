use user_service::role::Role;
use user_service::row::UserRow;
use user_service::user::{CreateUser, Users};

fn payload(role: i32) -> CreateUser {
    CreateUser {
        nom: "A".to_string(),
        prenom: "B".to_string(),
        email: "a@b.com".to_string(),
        password: "p".to_string(),
        telephone: "000".to_string(),
        role,
        created_user: 0x1234,
    }
}

fn row(role: i32, created_at: Option<i64>, updated_at: Option<i64>) -> UserRow {
    UserRow {
        id: 99,
        nom: "Dupont".to_string(),
        prenom: "Jean".to_string(),
        email: "jean@example.com".to_string(),
        password: "secret".to_string(),
        telephone: "0102030405".to_string(),
        role,
        created_at,
        updated_at,
    }
}

#[test]
fn new_at_copies_payload_and_stamps_both_times() {
    let u = Users::new_at(7, payload(1), 1_000);
    assert_eq!(u.id, 7);
    assert_eq!(u.nom, "A");
    assert_eq!(u.prenom, "B");
    assert_eq!(u.email, "a@b.com");
    assert_eq!(u.password, "p");
    assert_eq!(u.telephone, "000");
    assert_eq!(u.role, Role::Admin);
    assert_eq!(u.created_at, 1_000);
    assert_eq!(u.updated_at, 1_000);
}

#[test]
fn new_at_reads_unknown_role_as_guest() {
    assert_eq!(Users::new_at(1, payload(42), 0).role, Role::Guest);
}

#[test]
fn new_stamps_the_current_time() {
    let u = Users::new(5, payload(2));
    assert_eq!(u.id, 5);
    assert_eq!(u.role, Role::User);
    assert_eq!(u.created_at, u.updated_at);
    // later than 2017-07-14, in microseconds since the epoch
    assert!(u.created_at > 1_500_000_000_000_000);
}

#[test]
fn duplicate_copies_every_field() {
    let u = Users::new_at(3, payload(3), 12);
    let d = u.duplicate();
    assert_eq!(d.id, u.id);
    assert_eq!(d.nom, u.nom);
    assert_eq!(d.password, u.password);
    assert_eq!(d.role, u.role);
    assert_eq!(d.created_at, u.created_at);
    assert_eq!(d.updated_at, u.updated_at);
}

#[test]
fn row_with_timestamps_maps_field_for_field() {
    let u = row(2, Some(10), Some(20)).into_user_at(500);
    assert_eq!(u.id, 99);
    assert_eq!(u.nom, "Dupont");
    assert_eq!(u.prenom, "Jean");
    assert_eq!(u.email, "jean@example.com");
    assert_eq!(u.password, "secret");
    assert_eq!(u.telephone, "0102030405");
    assert_eq!(u.role, Role::User);
    assert_eq!(u.created_at, 10);
    assert_eq!(u.updated_at, 20);
}

#[test]
fn row_with_null_timestamps_reads_now() {
    let u = row(1, None, None).into_user_at(500);
    assert_eq!(u.created_at, 500);
    assert_eq!(u.updated_at, 500);
    let v = row(1, Some(3), None).into_user_at(500);
    assert_eq!(v.created_at, 3);
    assert_eq!(v.updated_at, 500);
}

#[test]
fn row_with_unknown_role_reads_guest() {
    assert_eq!(row(0, Some(1), Some(1)).into_user_at(0).role, Role::Guest);
}

#[test]
fn into_user_fills_nulls_with_current_time() {
    let u = row(3, Some(4), None).into_user();
    assert_eq!(u.created_at, 4);
    assert!(u.updated_at > 1_500_000_000_000_000);
}
