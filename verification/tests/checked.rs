use bit_roles::BitRoleImpl;
use bit_roles::RoleVariant;
use std::ops::BitOrAssign;

#[allow(dead_code)]
#[derive(Debug, Copy, Clone)]
enum TestRole {
    Nothing,
    One,
    Two,
}

impl RoleVariant for TestRole {
    fn spec_magnitude(self) -> usize {
        self.magnitude()
    }

    fn magnitude(self) -> usize {
        match self {
            TestRole::Nothing => 0,
            TestRole::One => 1,
            TestRole::Two => 2,
        }
    }
}

impl BitRoleImpl<TestRole> for TestRole {}

#[test]
fn checked_can_create_an_empty_manager() {
    let manager = TestRole::empty();
    assert_eq!(manager.get_value(), 0);
}

#[test]
fn checked_can_create_a_manager_from_value() {
    let manager = TestRole::from_value(5);
    assert_eq!(manager.get_value(), 5);
}

// Methods

#[test]
fn checked_add_one() {
    let mut manager = TestRole::empty();
    manager.add_one(TestRole::One);

    assert_eq!(manager.get_value(), TestRole::One.magnitude());
}

#[test]
fn checked_add_all() {
    let mut manager = TestRole::empty();
    manager.add_all(vec![TestRole::One, TestRole::Two]);

    let mut expected = TestRole::One.magnitude();
    expected.bitor_assign(TestRole::Two.magnitude());

    assert_eq!(manager.get_value(), expected);
}

#[test]
fn checked_remove_one() {
    let mut manager = TestRole::empty();
    manager.add_one(TestRole::One);

    assert_eq!(manager.get_value(), TestRole::One.magnitude());

    manager.remove_one(TestRole::One);

    assert_eq!(manager.get_value(), 0);
}

#[test]
fn checked_remove_all() {
    let mut manager = TestRole::empty();
    manager.add_all(vec![TestRole::One, TestRole::Two]);

    let mut expected = TestRole::One.magnitude();
    expected.bitor_assign(TestRole::Two.magnitude());

    assert_eq!(manager.get_value(), expected);

    manager.remove_all(vec![TestRole::One, TestRole::Two]);

    assert_eq!(manager.get_value(), 0);
}

#[test]
fn checked_has_one() {
    let mut manager = TestRole::empty();

    assert!(!manager.has_one(TestRole::One));

    manager.add_one(TestRole::One);

    assert!(manager.has_one(TestRole::One));
}

#[test]
fn checked_has_all() {
    let mut manager = TestRole::empty();
    manager.add_one(TestRole::One);

    assert!(!manager.has_all(vec![TestRole::One, TestRole::Two]));

    manager.add_one(TestRole::Two);

    assert!(manager.has_all(vec![TestRole::One, TestRole::Two]));
}

#[test]
fn checked_has_any() {
    let mut manager = TestRole::empty();

    assert!(!manager.has_any(vec![TestRole::One, TestRole::Two]));

    manager.add_one(TestRole::One);

    assert!(manager.has_any(vec![TestRole::One, TestRole::Two]));
}

#[test]
fn checked_not_one() {
    let mut manager = TestRole::empty();

    assert!(manager.not_one(TestRole::One));

    manager.add_one(TestRole::One);

    assert!(!manager.not_one(TestRole::One));
}

#[test]
fn checked_not_all() {
    let mut manager = TestRole::empty();
    manager.add_one(TestRole::One);

    assert!(manager.not_all(vec![TestRole::One, TestRole::Two]));

    manager.add_one(TestRole::Two);

    assert!(!manager.not_all(vec![TestRole::One, TestRole::Two]));
}

#[test]
fn checked_not_any() {
    let mut manager = TestRole::empty();

    assert!(manager.not_any(vec![TestRole::One, TestRole::Two]));

    manager.add_one(TestRole::One);

    assert!(!manager.not_any(vec![TestRole::One, TestRole::Two]));
}

#[test]
fn checked_equality() {
    let mut m1 = TestRole::empty();
    let mut m2 = TestRole::empty();

    m1.add_one(TestRole::One);
    m2.add_one(TestRole::One);

    assert_eq!(m1, m2);
}
