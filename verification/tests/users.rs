use user_repo::{User, UserRole};

#[test]
fn test_user_creation() {
    let user = User::new(1, "Test".to_string(), "test@example.com".to_string());
    assert_eq!(user.id, 1);
    assert_eq!(user.name, "Test");
    assert_eq!(user.role, UserRole::User);
}

#[test]
fn test_admin_user() {
    let admin = User::admin(1, "Admin".to_string(), "admin@example.com".to_string());
    assert!(admin.is_admin());
}

#[test]
fn non_admin_roles_fail_admin_check() {
    let user = User::new(2, "Bob".to_string(), "bob@example.com".to_string());
    assert!(!user.is_admin());
    let mut guest = User::new(3, "Eve".to_string(), "eve@example.com".to_string());
    guest.role = UserRole::Guest;
    assert!(!guest.is_admin());
}

#[test]
fn clone_keeps_fields() {
    let user = User::new(9, "Ann".to_string(), "ann@example.com".to_string())
        .with_metadata("team".to_string(), "blue".to_string());
    let copy = user.clone();
    assert_eq!(copy.id, 9);
    assert_eq!(copy.name, "Ann");
    assert_eq!(copy.email, "ann@example.com");
    assert_eq!(copy.role, UserRole::User);
}

#[test]
fn with_metadata_keeps_the_rest() {
    let user = User::new(4, "Dana".to_string(), "dana@example.com".to_string())
        .with_metadata("team".to_string(), "red".to_string())
        .with_metadata("team".to_string(), "green".to_string());
    assert_eq!(user.id, 4);
    assert_eq!(user.name, "Dana");
    assert_eq!(user.email, "dana@example.com");
    assert_eq!(user.role, UserRole::User);
}

#[test]
fn describe_renders_the_record() {
    let user = User::new(42, "Alice".to_string(), "alice@example.com".to_string());
    assert_eq!(user.describe(), "User(42: Alice <alice@example.com>)");
}
