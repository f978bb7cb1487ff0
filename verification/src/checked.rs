use vstd::prelude::*;
use std::marker::PhantomData;
use crate::mask::has_all_roles;
use crate::mask::has_any_role;
use crate::mask::has_role;
use crate::mask::lemma_add_nothing;
use crate::mask::lemma_or_assoc;
use crate::mask::lemma_remove_fold;
use crate::mask::lemma_remove_nothing;
use crate::mask::union_of;
use crate::RoleVariant;

verus! {

/// The magnitudes a sequence of symbolic roles maps to.
pub open spec fn role_magnitudes<T: RoleVariant>(roles: Seq<T>) -> Seq<usize> {
    roles.map_values(|t: T| t.spec_magnitude())
}

/// Bit role trait with compile-time value checks. Implements [RoleManager]
/// for a role enum.
pub trait BitRoleImpl<T>: Sized {
    /// Creates a new [RoleManager] instance with the default value.
    fn empty() -> (m: RoleManager<T>)
        ensures
            m.value == 0,
    {
        RoleManager { value: 0, roles: PhantomData }
    }

    /// Creates a new [RoleManager] instance with the provided value. The
    /// value is a combination, not a single role, so no magnitude check
    /// applies.
    ///
    /// * `value` - The value for the manager.
    fn from_value(value: usize) -> (m: RoleManager<T>)
        ensures
            m.value == value,
    {
        RoleManager { value, roles: PhantomData }
    }
}

/// The default role manager with compile-time value checks.
#[derive(Debug)]
pub struct RoleManager<T> {
    /// The stored combination of role magnitudes.
    pub value: usize,
    /// Ties the manager to the role type it was built for; no runtime
    /// representation.
    pub roles: PhantomData<T>,
}

impl<T> RoleManager<T> where T: RoleVariant {
    /// Adds a single role to the manager instance.
    ///
    /// * `role` - The role to add to the manager.
    pub fn add_one(&mut self, role: T)
        ensures
            final(self).value == old(self).value | role.spec_magnitude(),
    {
        self.value = self.value | role.magnitude();
    }

    /// Adds multiple roles to the manager instance, in order.
    ///
    /// * `roles` - The roles to add to the manager.
    pub fn add_all(&mut self, roles: Vec<T>)
        ensures
            final(self).value == old(self).value | union_of(role_magnitudes(roles@)),
    {
        let ghost mags = role_magnitudes(roles@);
        proof {
            lemma_add_nothing(self.value);
        }
        for i in 0..roles.len()
            invariant
                mags == role_magnitudes(roles@),
                self.value == old(self).value | union_of(mags.take(i as int)),
        {
            self.add_one(roles[i]);
            proof {
                assert(mags.take(i + 1).drop_last() =~= mags.take(i as int));
                lemma_or_assoc(old(self).value, union_of(mags.take(i as int)), mags[i as int]);
            }
        }
        proof {
            assert(mags.take(roles@.len() as int) =~= mags);
        }
    }

    /// Removes a single role from the manager instance.
    ///
    /// * `role` - The role to remove from the manager.
    pub fn remove_one(&mut self, role: T)
        ensures
            final(self).value == old(self).value & !role.spec_magnitude(),
    {
        self.value = self.value & !role.magnitude();
    }

    /// Removes multiple roles from the manager instance, in order.
    ///
    /// * `roles` - The roles to remove from the manager.
    pub fn remove_all(&mut self, roles: Vec<T>)
        ensures
            final(self).value == old(self).value & !union_of(role_magnitudes(roles@)),
    {
        let ghost mags = role_magnitudes(roles@);
        proof {
            lemma_remove_nothing(self.value);
        }
        for i in 0..roles.len()
            invariant
                mags == role_magnitudes(roles@),
                self.value == old(self).value & !union_of(mags.take(i as int)),
        {
            self.remove_one(roles[i]);
            proof {
                assert(mags.take(i + 1).drop_last() =~= mags.take(i as int));
                lemma_remove_fold(old(self).value, union_of(mags.take(i as int)), mags[i as int]);
            }
        }
        proof {
            assert(mags.take(roles@.len() as int) =~= mags);
        }
    }

    /// Checks whether a single role is assigned to the manager instance.
    /// The zero magnitude (the sentinel role) is never assigned.
    ///
    /// * `role` - The role to check against the manager.
    pub fn has_one(&self, role: T) -> (r: bool)
        ensures
            r == has_role(self.value, role.spec_magnitude()),
    {
        self.value & role.magnitude() != 0
    }

    /// Checks whether each of the roles is assigned to the manager
    /// instance; vacuously true for an empty sequence.
    ///
    /// * `roles` - The roles to check against the manager.
    pub fn has_all(&self, roles: Vec<T>) -> (r: bool)
        ensures
            r == has_all_roles(self.value, role_magnitudes(roles@)),
    {
        let ghost mags = role_magnitudes(roles@);
        for i in 0..roles.len()
            invariant
                mags == role_magnitudes(roles@),
                forall|j: int| 0 <= j < i ==> has_role(self.value, #[trigger] mags[j]),
        {
            proof {
                assert(mags[i as int] == roles@[i as int].spec_magnitude());
            }
            if !self.has_one(roles[i]) {
                return false;
            }
        }
        true
    }

    /// Checks whether any one of the roles is assigned to the manager
    /// instance; false for an empty sequence.
    ///
    /// * `roles` - The roles to check against the manager.
    pub fn has_any(&self, roles: Vec<T>) -> (r: bool)
        ensures
            r == has_any_role(self.value, role_magnitudes(roles@)),
    {
        let ghost mags = role_magnitudes(roles@);
        for i in 0..roles.len()
            invariant
                mags == role_magnitudes(roles@),
                forall|j: int| 0 <= j < i ==> !has_role(self.value, #[trigger] mags[j]),
        {
            proof {
                assert(mags[i as int] == roles@[i as int].spec_magnitude());
            }
            if self.has_one(roles[i]) {
                return true;
            }
        }
        false
    }

    /// Checks whether a single role is not assigned to the manager
    /// instance: the exact negation of [Self::has_one].
    ///
    /// * `role` - The role to check against the manager.
    pub fn not_one(&self, role: T) -> (r: bool)
        ensures
            r == !has_role(self.value, role.spec_magnitude()),
    {
        !self.has_one(role)
    }

    /// Checks whether each of the roles is not assigned to the manager
    /// instance: the exact negation of [Self::has_all].
    ///
    /// * `roles` - The roles to check against the manager.
    pub fn not_all(&self, roles: Vec<T>) -> (r: bool)
        ensures
            r == !has_all_roles(self.value, role_magnitudes(roles@)),
    {
        !self.has_all(roles)
    }

    /// Checks whether any of the roles is not assigned to the manager
    /// instance: the exact negation of [Self::has_any].
    ///
    /// * `roles` - The roles to check against the manager.
    pub fn not_any(&self, roles: Vec<T>) -> (r: bool)
        ensures
            r == !has_any_role(self.value, role_magnitudes(roles@)),
    {
        !self.has_any(roles)
    }

    /// Returns the value of the manager instance.
    pub fn get_value(&self) -> (v: usize)
        ensures
            v == self.value,
    {
        self.value
    }
}

impl<T> PartialEq for RoleManager<T> {
    /// Two managers are equal exactly when their stored magnitudes are
    /// equal; the phantom role type tag plays no part.
    fn eq(&self, other: &Self) -> (r: bool) {
        self.value == other.value
    }
}

impl<T> vstd::std_specs::cmp::PartialEqSpecImpl for RoleManager<T> {
    open spec fn obeys_eq_spec() -> bool {
        true
    }

    open spec fn eq_spec(&self, other: &Self) -> bool {
        self.value == other.value
    }
}

impl<T> Eq for RoleManager<T> {

}

} // verus!
