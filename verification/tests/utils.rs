use bit_roles::is_valid_role;
use bit_roles::is_validate_role;
use bit_roles::negate;

#[test]
fn is_valid_role_can_validate_roles() {
    assert!(is_valid_role(0));
    assert!(is_valid_role(1));
    assert!(is_valid_role(2));
    assert!(is_valid_role(4));
}

#[test]
fn is_valid_role_can_invalidate_roles() {
    assert!(!is_valid_role(3));
    assert!(!is_valid_role(5));
}

#[test]
fn is_validate_role_can_validate_roles() {
    assert!(is_validate_role(0));
    assert!(is_validate_role(1));
    assert!(is_validate_role(2));
    assert!(is_validate_role(4));
}

#[test]
fn is_validate_role_can_invalidate_roles() {
    assert!(!is_validate_role(3));
    assert!(!is_validate_role(5));
}

#[test]
fn can_negate_values() {
    assert!(negate(false));
}
