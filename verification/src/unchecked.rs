use vstd::prelude::*;
use std::marker::PhantomData;
use crate::checked::role_magnitudes;
use crate::error::RoleError;
use crate::mask::has_any_role;
use crate::mask::has_role;
use crate::mask::lemma_add_nothing;
use crate::mask::lemma_or_assoc;
use crate::mask::lemma_quiet_prefix_len_at;
use crate::mask::lemma_remove_fold;
use crate::mask::lemma_remove_nothing;
use crate::mask::lemma_valid_prefix_len_at;
use crate::mask::quiet_prefix_len;
use crate::mask::single_role;
use crate::mask::union_of;
use crate::mask::valid_prefix_len;
use crate::role_value::RoleValue;
use crate::role_value::value_magnitudes;
use crate::utils::is_valid_role;
use crate::utils::negate;
use crate::RoleVariant;

verus! {

/// Unchecked bit role trait. Implements [RoleManagerUnchecked] for a role
/// enum.
pub trait BitRoleUncheckedImpl<T>: Sized {
    /// Creates a new [RoleManagerUnchecked] instance with the default
    /// value.
    fn empty() -> (m: RoleManagerUnchecked<T>)
        ensures
            m.value == 0,
    {
        RoleManagerUnchecked { value: 0, roles: PhantomData }
    }

    /// Creates a new [RoleManagerUnchecked] instance with the provided
    /// value. The value is a combination, not a single role, so no
    /// magnitude check applies.
    ///
    /// * `value` - The value for the manager.
    fn from_value(value: usize) -> (m: RoleManagerUnchecked<T>)
        ensures
            m.value == value,
    {
        RoleManagerUnchecked { value, roles: PhantomData }
    }
}

/// The unchecked role manager. Typically used when you need to use raw
/// integer role values or have complex enum definitions. Every operation
/// revalidates its input magnitude at call time.
#[derive(Debug)]
pub struct RoleManagerUnchecked<T> {
    /// The stored combination of role magnitudes.
    pub value: usize,
    /// Ties the manager to the role type it was built for; no runtime
    /// representation.
    pub roles: PhantomData<T>,
}

impl<T> RoleManagerUnchecked<T> where T: RoleVariant {
    /// Validates the magnitude of the role value.
    ///
    /// * `role` - The role value to validate.
    fn validate_role(&self, role: RoleValue<T>) -> (r: Result<usize, RoleError>)
        ensures
            single_role(role.spec_magnitude()) ==> r == Ok::<usize, RoleError>(
                role.spec_magnitude(),
            ),
            !single_role(role.spec_magnitude()) ==> r == Err::<usize, RoleError>(
                RoleError::InvalidRole(role.spec_magnitude()),
            ),
    {
        let mag = role.magnitude();
        if is_valid_role(mag) {
            Ok(mag)
        } else {
            Err(RoleError::InvalidRole(mag))
        }
    }

    /// Converts a vector of roles to a vector of equivalent [RoleValue]
    /// variants.
    ///
    /// * `roles` - The roles to convert.
    fn to_role_values(&self, roles: Vec<T>) -> (r: Vec<RoleValue<T>>)
        ensures
            value_magnitudes(r@) == role_magnitudes(roles@),
    {
        let mut values: Vec<RoleValue<T>> = Vec::new();
        for i in 0..roles.len()
            invariant
                values@.len() == i,
                forall|j: int| 0 <= j < i ==> values@[j] == RoleValue::<T>::Role(roles@[j]),
        {
            values.push(RoleValue::Role(roles[i]));
        }
        proof {
            assert(value_magnitudes(values@) =~= role_magnitudes(roles@));
        }
        values
    }

    /// Validates and adds a single role value to the manager instance.
    /// This is a non-panicking equivalent of the [add_one] method. On
    /// failure the stored magnitude is unchanged.
    ///
    /// [add_one]: RoleManagerUnchecked::add_one
    ///
    /// * `role` - The role value to add to the manager.
    pub fn try_add_one(&mut self, role: RoleValue<T>) -> (r: Result<(), RoleError>)
        ensures
            single_role(role.spec_magnitude()) ==> r == Ok::<(), RoleError>(()) && final(self).value == old(self).value | role.spec_magnitude(),
            !single_role(role.spec_magnitude()) ==> r == Err::<(), RoleError>(
                RoleError::InvalidRole(role.spec_magnitude()),
            ) && final(self).value == old(self).value,
    {
        match self.validate_role(role) {
            Ok(value) => {
                self.value = self.value | value;
                Ok(())
            },
            Err(e) => Err(e),
        }
    }

    /// Validates and adds multiple role values to the manager instance,
    /// in order. This is a non-panicking equivalent of the [add_all]
    /// method. The batch is not atomic: it stops at the first invalid
    /// magnitude, and the elements before it have already been added.
    ///
    /// [add_all]: RoleManagerUnchecked::add_all
    ///
    /// * `roles` - The role values to add to the manager.
    pub fn try_add_all(&mut self, roles: Vec<RoleValue<T>>) -> (r: Result<(), RoleError>)
        ensures
            ({
                let mags = value_magnitudes(roles@);
                let k = valid_prefix_len(mags);
                &&& k == mags.len() ==> r == Ok::<(), RoleError>(()) && final(self).value == old(self).value | union_of(mags)
                &&& k < mags.len() ==> r == Err::<(), RoleError>(RoleError::InvalidRole(mags[k]))
                    && final(self).value == old(self).value | union_of(mags.take(k))
            }),
    {
        let ghost mags = value_magnitudes(roles@);
        proof {
            lemma_add_nothing(self.value);
        }
        for i in 0..roles.len()
            invariant
                mags == value_magnitudes(roles@),
                forall|j: int| 0 <= j < i ==> single_role(#[trigger] mags[j]),
                self.value == old(self).value | union_of(mags.take(i as int)),
        {
            proof {
                assert(mags[i as int] == roles@[i as int].spec_magnitude());
            }
            match self.try_add_one(roles[i]) {
                Ok(_) => {
                    proof {
                        assert(mags.take(i + 1).drop_last() =~= mags.take(i as int));
                        lemma_or_assoc(
                            old(self).value,
                            union_of(mags.take(i as int)),
                            mags[i as int],
                        );
                    }
                },
                Err(e) => {
                    proof {
                        lemma_valid_prefix_len_at(mags, i as int);
                    }
                    return Err(e);
                },
            }
        }
        proof {
            lemma_valid_prefix_len_at(mags, mags.len() as int);
            assert(mags.take(mags.len() as int) =~= mags);
        }
        Ok(())
    }

    /// Validates and removes a single role value from the manager
    /// instance. This is a non-panicking equivalent of the [remove_one]
    /// method. On failure the stored magnitude is unchanged.
    ///
    /// [remove_one]: RoleManagerUnchecked::remove_one
    ///
    /// * `role` - The role value to remove from the manager.
    pub fn try_remove_one(&mut self, role: RoleValue<T>) -> (r: Result<(), RoleError>)
        ensures
            single_role(role.spec_magnitude()) ==> r == Ok::<(), RoleError>(()) && final(self).value == old(self).value & !role.spec_magnitude(),
            !single_role(role.spec_magnitude()) ==> r == Err::<(), RoleError>(
                RoleError::InvalidRole(role.spec_magnitude()),
            ) && final(self).value == old(self).value,
    {
        match self.validate_role(role) {
            Ok(value) => {
                self.value = self.value & !value;
                Ok(())
            },
            Err(e) => Err(e),
        }
    }

    /// Validates and removes multiple role values from the manager
    /// instance, in order. This is a non-panicking equivalent of the
    /// [remove_all] method. The batch is not atomic: it stops at the
    /// first invalid magnitude, and the elements before it have already
    /// been removed.
    ///
    /// [remove_all]: RoleManagerUnchecked::remove_all
    ///
    /// * `roles` - The role values to remove from the manager.
    pub fn try_remove_all(&mut self, roles: Vec<RoleValue<T>>) -> (r: Result<(), RoleError>)
        ensures
            ({
                let mags = value_magnitudes(roles@);
                let k = valid_prefix_len(mags);
                &&& k == mags.len() ==> r == Ok::<(), RoleError>(()) && final(self).value == old(self).value & !union_of(mags)
                &&& k < mags.len() ==> r == Err::<(), RoleError>(RoleError::InvalidRole(mags[k]))
                    && final(self).value == old(self).value & !union_of(mags.take(k))
            }),
    {
        let ghost mags = value_magnitudes(roles@);
        proof {
            lemma_remove_nothing(self.value);
        }
        for i in 0..roles.len()
            invariant
                mags == value_magnitudes(roles@),
                forall|j: int| 0 <= j < i ==> single_role(#[trigger] mags[j]),
                self.value == old(self).value & !union_of(mags.take(i as int)),
        {
            proof {
                assert(mags[i as int] == roles@[i as int].spec_magnitude());
            }
            match self.try_remove_one(roles[i]) {
                Ok(_) => {
                    proof {
                        assert(mags.take(i + 1).drop_last() =~= mags.take(i as int));
                        lemma_remove_fold(
                            old(self).value,
                            union_of(mags.take(i as int)),
                            mags[i as int],
                        );
                    }
                },
                Err(e) => {
                    proof {
                        lemma_valid_prefix_len_at(mags, i as int);
                    }
                    return Err(e);
                },
            }
        }
        proof {
            lemma_valid_prefix_len_at(mags, mags.len() as int);
            assert(mags.take(mags.len() as int) =~= mags);
        }
        Ok(())
    }

    /// Validates and checks whether a single role is assigned to the
    /// manager instance. This is a non-panicking equivalent of the
    /// [has_one] method.
    ///
    /// [has_one]: RoleManagerUnchecked::has_one
    ///
    /// * `role` - The role value to check against the manager.
    pub fn try_has_one(&self, role: RoleValue<T>) -> (r: Result<bool, RoleError>)
        ensures
            single_role(role.spec_magnitude()) ==> r == Ok::<bool, RoleError>(
                has_role(self.value, role.spec_magnitude()),
            ),
            !single_role(role.spec_magnitude()) ==> r == Err::<bool, RoleError>(
                RoleError::InvalidRole(role.spec_magnitude()),
            ),
    {
        match self.validate_role(role) {
            Ok(value) => Ok(self.value & value != 0),
            Err(e) => Err(e),
        }
    }

    /// Validates and checks the roles against the manager instance, in
    /// order, stopping at the first invalid magnitude. This is a
    /// non-panicking equivalent of the [has_all] method.
    ///
    /// Note: when every magnitude is valid, the verdict is the one for
    /// the *last* role of the sequence alone (false for an empty
    /// sequence), not the conjunction over all of them. This mirrors the
    /// long-standing behaviour of the fallible batch query and is kept
    /// deliberately.
    ///
    /// [has_all]: RoleManagerUnchecked::has_all
    ///
    /// * `roles` - The role values to check against the manager.
    pub fn try_has_all(&self, roles: Vec<RoleValue<T>>) -> (r: Result<bool, RoleError>)
        ensures
            ({
                let mags = value_magnitudes(roles@);
                let k = valid_prefix_len(mags);
                &&& k == mags.len() ==> r == Ok::<bool, RoleError>(
                    mags.len() > 0 && has_role(self.value, mags.last()),
                )
                &&& k < mags.len() ==> r == Err::<bool, RoleError>(RoleError::InvalidRole(mags[k]))
            }),
    {
        let ghost mags = value_magnitudes(roles@);
        let mut flag = false;
        for i in 0..roles.len()
            invariant
                mags == value_magnitudes(roles@),
                forall|j: int| 0 <= j < i ==> single_role(#[trigger] mags[j]),
                flag == (i > 0 && has_role(self.value, mags[i - 1])),
        {
            proof {
                assert(mags[i as int] == roles@[i as int].spec_magnitude());
            }
            match self.try_has_one(roles[i]) {
                Ok(b) => {
                    flag = b;
                },
                Err(e) => {
                    proof {
                        lemma_valid_prefix_len_at(mags, i as int);
                    }
                    return Err(e);
                },
            }
        }
        proof {
            lemma_valid_prefix_len_at(mags, mags.len() as int);
        }
        Ok(flag)
    }

    /// Validates and checks whether any one of the roles is assigned to
    /// the manager instance, in order: it answers true at the first
    /// assigned role, fails at the first invalid magnitude, and answers
    /// false when the whole sequence is valid and unassigned. This is a
    /// non-panicking equivalent of the [has_any] method.
    ///
    /// [has_any]: RoleManagerUnchecked::has_any
    ///
    /// * `roles` - The role values to check against the manager.
    pub fn try_has_any(&self, roles: Vec<RoleValue<T>>) -> (r: Result<bool, RoleError>)
        ensures
            ({
                let mags = value_magnitudes(roles@);
                let k = quiet_prefix_len(self.value, mags);
                &&& k == mags.len() ==> r == Ok::<bool, RoleError>(false)
                &&& k < mags.len() && !single_role(mags[k]) ==> r == Err::<bool, RoleError>(
                    RoleError::InvalidRole(mags[k]),
                )
                &&& k < mags.len() && single_role(mags[k]) ==> r == Ok::<bool, RoleError>(true)
            }),
    {
        let ghost mags = value_magnitudes(roles@);
        for i in 0..roles.len()
            invariant
                mags == value_magnitudes(roles@),
                forall|j: int| 0 <= j < i ==> single_role(#[trigger] mags[j]) && !has_role(
                    self.value,
                    mags[j],
                ),
        {
            proof {
                assert(mags[i as int] == roles@[i as int].spec_magnitude());
            }
            match self.try_has_one(roles[i]) {
                Ok(b) => {
                    if b {
                        proof {
                            lemma_quiet_prefix_len_at(self.value, mags, i as int);
                        }
                        return Ok(true);
                    }
                },
                Err(e) => {
                    proof {
                        lemma_quiet_prefix_len_at(self.value, mags, i as int);
                    }
                    return Err(e);
                },
            }
        }
        proof {
            lemma_quiet_prefix_len_at(self.value, mags, mags.len() as int);
        }
        Ok(false)
    }

    /// Validates and checks whether a single role is not assigned to the
    /// manager instance: the exact negation of [Self::try_has_one]. This
    /// is a non-panicking equivalent of the [not_one] method.
    ///
    /// [not_one]: RoleManagerUnchecked::not_one
    ///
    /// * `role` - The role value to check against the manager.
    pub fn try_not_one(&self, role: RoleValue<T>) -> (r: Result<bool, RoleError>)
        ensures
            single_role(role.spec_magnitude()) ==> r == Ok::<bool, RoleError>(
                !has_role(self.value, role.spec_magnitude()),
            ),
            !single_role(role.spec_magnitude()) ==> r == Err::<bool, RoleError>(
                RoleError::InvalidRole(role.spec_magnitude()),
            ),
    {
        match self.try_has_one(role) {
            Ok(b) => Ok(negate(b)),
            Err(e) => Err(e),
        }
    }

    /// Validates and checks the roles against the manager instance: the
    /// exact negation of [Self::try_has_all], error cases included. This
    /// is a non-panicking equivalent of the [not_all] method.
    ///
    /// [not_all]: RoleManagerUnchecked::not_all
    ///
    /// * `roles` - The role values to check against the manager.
    pub fn try_not_all(&self, roles: Vec<RoleValue<T>>) -> (r: Result<bool, RoleError>)
        ensures
            ({
                let mags = value_magnitudes(roles@);
                let k = valid_prefix_len(mags);
                &&& k == mags.len() ==> r == Ok::<bool, RoleError>(
                    !(mags.len() > 0 && has_role(self.value, mags.last())),
                )
                &&& k < mags.len() ==> r == Err::<bool, RoleError>(RoleError::InvalidRole(mags[k]))
            }),
    {
        match self.try_has_all(roles) {
            Ok(b) => Ok(negate(b)),
            Err(e) => Err(e),
        }
    }

    /// Validates and checks whether any of the roles is not assigned to
    /// the manager instance: the exact negation of [Self::try_has_any],
    /// error cases included. This is a non-panicking equivalent of the
    /// [not_any] method.
    ///
    /// [not_any]: RoleManagerUnchecked::not_any
    ///
    /// * `roles` - The role values to check against the manager.
    pub fn try_not_any(&self, roles: Vec<RoleValue<T>>) -> (r: Result<bool, RoleError>)
        ensures
            ({
                let mags = value_magnitudes(roles@);
                let k = quiet_prefix_len(self.value, mags);
                &&& k == mags.len() ==> r == Ok::<bool, RoleError>(true)
                &&& k < mags.len() && !single_role(mags[k]) ==> r == Err::<bool, RoleError>(
                    RoleError::InvalidRole(mags[k]),
                )
                &&& k < mags.len() && single_role(mags[k]) ==> r == Ok::<bool, RoleError>(false)
            }),
    {
        match self.try_has_any(roles) {
            Ok(b) => Ok(negate(b)),
            Err(e) => Err(e),
        }
    }

    /// Adds a single role to the manager instance. The role's magnitude
    /// must be valid; use [try_add_one] to handle an arbitrary one.
    ///
    /// [try_add_one]: RoleManagerUnchecked::try_add_one
    ///
    /// * `role` - The role to add to the manager.
    pub fn add_one(&mut self, role: T)
        requires
            single_role(role.spec_magnitude()),
        ensures
            final(self).value == old(self).value | role.spec_magnitude(),
    {
        let result = self.try_add_one(RoleValue::from_role(role));
        result.expect("`role` is invalid")
    }

    /// Adds multiple roles to the manager instance, in order. Every
    /// role's magnitude must be valid; use [try_add_all] to handle
    /// arbitrary ones.
    ///
    /// [try_add_all]: RoleManagerUnchecked::try_add_all
    ///
    /// * `roles` - The roles to add to the manager.
    pub fn add_all(&mut self, roles: Vec<T>)
        requires
            forall|i: int|
                0 <= i < roles@.len() ==> single_role(#[trigger] roles@[i].spec_magnitude()),
        ensures
            final(self).value == old(self).value | union_of(role_magnitudes(roles@)),
    {
        let ghost mags = role_magnitudes(roles@);
        proof {
            assert(forall|i: int| 0 <= i < mags.len() ==> single_role(#[trigger] mags[i]));
            lemma_valid_prefix_len_at(mags, mags.len() as int);
        }
        let values = self.to_role_values(roles);
        let result = self.try_add_all(values);
        result.expect("`roles` contain invalid values")
    }

    /// Removes a single role from the manager instance. The role's
    /// magnitude must be valid; use [try_remove_one] to handle an
    /// arbitrary one.
    ///
    /// [try_remove_one]: RoleManagerUnchecked::try_remove_one
    ///
    /// * `role` - The role to remove from the manager.
    pub fn remove_one(&mut self, role: T)
        requires
            single_role(role.spec_magnitude()),
        ensures
            final(self).value == old(self).value & !role.spec_magnitude(),
    {
        let result = self.try_remove_one(RoleValue::from_role(role));
        result.expect("`role` is invalid")
    }

    /// Removes multiple roles from the manager instance, in order. Every
    /// role's magnitude must be valid; use [try_remove_all] to handle
    /// arbitrary ones.
    ///
    /// [try_remove_all]: RoleManagerUnchecked::try_remove_all
    ///
    /// * `roles` - The roles to remove from the manager.
    pub fn remove_all(&mut self, roles: Vec<T>)
        requires
            forall|i: int|
                0 <= i < roles@.len() ==> single_role(#[trigger] roles@[i].spec_magnitude()),
        ensures
            final(self).value == old(self).value & !union_of(role_magnitudes(roles@)),
    {
        let ghost mags = role_magnitudes(roles@);
        proof {
            assert(forall|i: int| 0 <= i < mags.len() ==> single_role(#[trigger] mags[i]));
            lemma_valid_prefix_len_at(mags, mags.len() as int);
        }
        let values = self.to_role_values(roles);
        let result = self.try_remove_all(values);
        result.expect("`roles` contain invalid values")
    }

    /// Checks whether a single role is assigned to the manager instance.
    /// The role's magnitude must be valid; use [try_has_one] to handle
    /// an arbitrary one.
    ///
    /// [try_has_one]: RoleManagerUnchecked::try_has_one
    ///
    /// * `role` - The role to check against the manager.
    pub fn has_one(&self, role: T) -> (r: bool)
        requires
            single_role(role.spec_magnitude()),
        ensures
            r == has_role(self.value, role.spec_magnitude()),
    {
        let result = self.try_has_one(RoleValue::from_role(role));
        result.expect("`role` is invalid")
    }

    /// Checks the roles against the manager instance. Every role's
    /// magnitude must be valid; use [try_has_all] to handle arbitrary
    /// ones. The verdict is the one for the *last* role of the sequence
    /// alone (false for an empty sequence), as for [Self::try_has_all].
    ///
    /// [try_has_all]: RoleManagerUnchecked::try_has_all
    ///
    /// * `roles` - The roles to check against the manager.
    pub fn has_all(&self, roles: Vec<T>) -> (r: bool)
        requires
            forall|i: int|
                0 <= i < roles@.len() ==> single_role(#[trigger] roles@[i].spec_magnitude()),
        ensures
            r == (roles@.len() > 0 && has_role(self.value, role_magnitudes(roles@).last())),
    {
        let ghost mags = role_magnitudes(roles@);
        proof {
            assert(forall|i: int| 0 <= i < mags.len() ==> single_role(#[trigger] mags[i]));
            lemma_valid_prefix_len_at(mags, mags.len() as int);
        }
        let values = self.to_role_values(roles);
        let result = self.try_has_all(values);
        result.expect("`roles` contain invalid values")
    }

    /// Checks whether any one of the roles is assigned to the manager
    /// instance. Every role's magnitude must be valid; use [try_has_any]
    /// to handle arbitrary ones.
    ///
    /// [try_has_any]: RoleManagerUnchecked::try_has_any
    ///
    /// * `roles` - The roles to check against the manager.
    pub fn has_any(&self, roles: Vec<T>) -> (r: bool)
        requires
            forall|i: int|
                0 <= i < roles@.len() ==> single_role(#[trigger] roles@[i].spec_magnitude()),
        ensures
            r == has_any_role(self.value, role_magnitudes(roles@)),
    {
        let ghost mags = role_magnitudes(roles@);
        proof {
            assert(forall|i: int| 0 <= i < mags.len() ==> single_role(#[trigger] mags[i]));
        }
        let values = self.to_role_values(roles);
        let result = self.try_has_any(values);
        proof {
            lemma_quiet_prefix_has_any(self.value, mags);
        }
        result.expect("`roles` contain invalid values")
    }

    /// Checks whether a single role is not assigned to the manager
    /// instance: the exact negation of [Self::has_one]. The role's
    /// magnitude must be valid; use [try_not_one] to handle an arbitrary
    /// one.
    ///
    /// [try_not_one]: RoleManagerUnchecked::try_not_one
    ///
    /// * `role` - The role to check against the manager.
    pub fn not_one(&self, role: T) -> (r: bool)
        requires
            single_role(role.spec_magnitude()),
        ensures
            r == !has_role(self.value, role.spec_magnitude()),
    {
        let result = self.try_not_one(RoleValue::from_role(role));
        result.expect("`role` is invalid")
    }

    /// Checks the roles against the manager instance: the exact negation
    /// of [Self::has_all]. Every role's magnitude must be valid; use
    /// [try_not_all] to handle arbitrary ones.
    ///
    /// [try_not_all]: RoleManagerUnchecked::try_not_all
    ///
    /// * `roles` - The roles to check against the manager.
    pub fn not_all(&self, roles: Vec<T>) -> (r: bool)
        requires
            forall|i: int|
                0 <= i < roles@.len() ==> single_role(#[trigger] roles@[i].spec_magnitude()),
        ensures
            r == !(roles@.len() > 0 && has_role(self.value, role_magnitudes(roles@).last())),
    {
        let ghost mags = role_magnitudes(roles@);
        proof {
            assert(forall|i: int| 0 <= i < mags.len() ==> single_role(#[trigger] mags[i]));
            lemma_valid_prefix_len_at(mags, mags.len() as int);
        }
        let values = self.to_role_values(roles);
        let result = self.try_not_all(values);
        result.expect("`roles` contain invalid values")
    }

    /// Checks whether any of the roles is not assigned to the manager
    /// instance: the exact negation of [Self::has_any]. Every role's
    /// magnitude must be valid; use [try_not_any] to handle arbitrary
    /// ones.
    ///
    /// [try_not_any]: RoleManagerUnchecked::try_not_any
    ///
    /// * `roles` - The roles to check against the manager.
    pub fn not_any(&self, roles: Vec<T>) -> (r: bool)
        requires
            forall|i: int|
                0 <= i < roles@.len() ==> single_role(#[trigger] roles@[i].spec_magnitude()),
        ensures
            r == !has_any_role(self.value, role_magnitudes(roles@)),
    {
        let ghost mags = role_magnitudes(roles@);
        proof {
            assert(forall|i: int| 0 <= i < mags.len() ==> single_role(#[trigger] mags[i]));
        }
        let values = self.to_role_values(roles);
        let result = self.try_not_any(values);
        proof {
            lemma_quiet_prefix_has_any(self.value, mags);
        }
        result.expect("`roles` contain invalid values")
    }

    /// Returns the value of the manager instance.
    pub fn get_value(&self) -> (v: usize)
        ensures
            v == self.value,
    {
        self.value
    }
}

impl<T> PartialEq for RoleManagerUnchecked<T> {
    /// Two managers are equal exactly when their stored magnitudes are
    /// equal; the phantom role type tag plays no part.
    fn eq(&self, other: &Self) -> (r: bool) {
        self.value == other.value
    }
}

impl<T> vstd::std_specs::cmp::PartialEqSpecImpl for RoleManagerUnchecked<T> {
    open spec fn obeys_eq_spec() -> bool {
        true
    }

    open spec fn eq_spec(&self, other: &Self) -> bool {
        self.value == other.value
    }
}

impl<T> Eq for RoleManagerUnchecked<T> {

}

/// On a sequence of valid magnitudes, the quiet prefix covers the whole
/// sequence exactly when the mask holds none of them; when it stops
/// early, it stops at a held role.
proof fn lemma_quiet_prefix_has_any(mask: usize, mags: Seq<usize>)
    requires
        forall|i: int| 0 <= i < mags.len() ==> single_role(#[trigger] mags[i]),
    ensures
        quiet_prefix_len(mask, mags) == mags.len() <==> !has_any_role(mask, mags),
        quiet_prefix_len(mask, mags) < mags.len() ==> single_role(
            mags[quiet_prefix_len(mask, mags)],
        ) && has_role(mask, mags[quiet_prefix_len(mask, mags)]),
        0 <= quiet_prefix_len(mask, mags) <= mags.len(),
    decreases mags.len(),
{
    if mags.len() > 0 {
        if single_role(mags[0]) && !has_role(mask, mags[0]) {
            let rest = mags.drop_first();
            assert(forall|i: int| 0 <= i < rest.len() ==> single_role(#[trigger] rest[i])) by {
                assert(forall|i: int| 0 <= i < rest.len() ==> rest[i] == mags[i + 1]);
            }
            lemma_quiet_prefix_has_any(mask, rest);
            assert(has_any_role(mask, mags) <==> has_any_role(
                mask,
                rest,
            )) by {
                assert(forall|i: int| 0 <= i < rest.len() ==> rest[i] == mags[i + 1]);
                if has_any_role(mask, mags) {
                    let w = choose|i: int|
                        0 <= i < mags.len() && has_role(mask, #[trigger] mags[i]);
                    assert(w != 0);
                    assert(rest[w - 1] == mags[w]);
                }
            }
        }
    }
}

} // verus!
