use vstd::prelude::*;
use crate::error::RoleError;
use crate::mask::single_role;
use crate::utils::is_valid_role;
use crate::RoleVariant;

verus! {

/// The enum holding value of a role.
#[derive(Debug, Copy, Clone)]
pub enum RoleValue<T> where T: RoleVariant {
    /// Variant that can accept role enum variants.
    Role(T),
    /// Variant that can accept literal integer values.
    Raw(usize),
}

impl<T> RoleValue<T> where T: RoleVariant {
    /// The normalized magnitude: a symbolic role contributes its mapped
    /// magnitude, a raw value contributes the integer itself.
    pub open spec fn spec_magnitude(self) -> usize {
        match self {
            RoleValue::Role(role) => role.spec_magnitude(),
            RoleValue::Raw(value) => value,
        }
    }

    /// Returns the normalized magnitude of the role value.
    pub fn magnitude(self) -> (v: usize)
        ensures
            v == self.spec_magnitude(),
    {
        match self {
            RoleValue::Role(role) => role.magnitude(),
            RoleValue::Raw(value) => value,
        }
    }

    /// Creates a new [RoleValue] instance from a role without performing
    /// the validation.
    ///
    /// * `role` - The role variant.
    pub fn from_role(role: T) -> (r: Self)
        ensures
            r == RoleValue::<T>::Role(role),
    {
        RoleValue::Role(role)
    }

    /// Validates a role and creates a new [RoleValue] instance from it.
    /// Fails with [RoleError::InvalidRole] exactly when the role's
    /// magnitude is neither zero nor a power of two.
    ///
    /// * `role` - The role variant.
    pub fn try_from_role(role: T) -> (r: Result<Self, RoleError>)
        ensures
            single_role(role.spec_magnitude()) ==> r == Ok::<Self, RoleError>(
                RoleValue::<T>::Role(role),
            ),
            !single_role(role.spec_magnitude()) ==> r == Err::<Self, RoleError>(
                RoleError::InvalidRole(role.spec_magnitude()),
            ),
    {
        let mag = role.magnitude();
        if is_valid_role(mag) {
            Ok(RoleValue::Role(role))
        } else {
            Err(RoleError::InvalidRole(mag))
        }
    }

    /// Creates a new [RoleValue] instance from an integer value without
    /// performing the validation.
    ///
    /// * `value` - The magnitude.
    pub fn from_usize(value: usize) -> (r: Self)
        ensures
            r == RoleValue::<T>::Raw(value),
    {
        RoleValue::Raw(value)
    }

    /// Validates an integer value and creates a new [RoleValue] instance
    /// from it. Fails with [RoleError::InvalidRole] exactly when the
    /// value is neither zero nor a power of two.
    ///
    /// * `value` - The magnitude.
    pub fn try_from_usize(value: usize) -> (r: Result<Self, RoleError>)
        ensures
            single_role(value) ==> r == Ok::<Self, RoleError>(RoleValue::<T>::Raw(value)),
            !single_role(value) ==> r == Err::<Self, RoleError>(RoleError::InvalidRole(value)),
    {
        if is_valid_role(value) {
            Ok(RoleValue::Raw(value))
        } else {
            Err(RoleError::InvalidRole(value))
        }
    }
}

impl<T> PartialEq for RoleValue<T> where T: RoleVariant {
    /// Two role values are equal when their normalized magnitudes are
    /// equal, across variants: a symbolic role equals the raw value it
    /// maps to.
    fn eq(&self, other: &Self) -> (r: bool) {
        self.magnitude() == other.magnitude()
    }
}

impl<T> vstd::std_specs::cmp::PartialEqSpecImpl for RoleValue<T> where T: RoleVariant {
    open spec fn obeys_eq_spec() -> bool {
        true
    }

    open spec fn eq_spec(&self, other: &Self) -> bool {
        self.spec_magnitude() == other.spec_magnitude()
    }
}

impl<T> Eq for RoleValue<T> where T: RoleVariant {

}

/// The normalized magnitudes of a sequence of role values.
pub open spec fn value_magnitudes<T: RoleVariant>(roles: Seq<RoleValue<T>>) -> Seq<usize> {
    roles.map_values(|r: RoleValue<T>| r.spec_magnitude())
}

} // verus!
