use user_service::role::Role;

#[test]
fn from_i32_decodes_defined_codes() {
    assert_eq!(Role::from_i32(1), Some(Role::Admin));
    assert_eq!(Role::from_i32(2), Some(Role::User));
    assert_eq!(Role::from_i32(3), Some(Role::Guest));
}

#[test]
fn from_i32_rejects_other_codes() {
    assert_eq!(Role::from_i32(0), None);
    assert_eq!(Role::from_i32(4), None);
    assert_eq!(Role::from_i32(-1), None);
    assert_eq!(Role::from_i32(i32::MAX), None);
}

#[test]
fn to_i32_encodes_each_role() {
    assert_eq!(Role::Admin.to_i32(), 1);
    assert_eq!(Role::User.to_i32(), 2);
    assert_eq!(Role::Guest.to_i32(), 3);
}

#[test]
fn role_code_round_trip() {
    for code in 1..=3 {
        assert_eq!(Role::from_i32(code).unwrap().to_i32(), code);
    }
    for code in [0, 4, 7, -5, i32::MIN] {
        assert_eq!(Role::from_i32_or_guest(code), Role::Guest);
        assert_eq!(Role::from_i32_or_guest(code).to_i32(), 3);
    }
}

#[test]
fn from_i32_or_guest_keeps_defined_codes() {
    assert_eq!(Role::from_i32_or_guest(1), Role::Admin);
    assert_eq!(Role::from_i32_or_guest(2), Role::User);
    assert_eq!(Role::from_i32_or_guest(3), Role::Guest);
}
