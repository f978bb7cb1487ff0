//! Granular role and permission management backed by bit flags.
//!
//! A role set is a single unsigned integer where each bit represents one
//! role; adding, removing and querying roles are bitwise operations. A
//! valid single-role magnitude is zero or a power of two, and every
//! operation surface of the crate rests on that rule.
//!
//! Two managers are offered. [`RoleManager`] trusts its role type: every
//! variant's magnitude is guaranteed valid at definition time (see
//! [`check_discriminants`]), so its operations are infallible.
//! [`RoleManagerUnchecked`] revalidates each magnitude at call time and
//! its fallible surface reports [`RoleError::InvalidRole`] on a value
//! that is neither zero nor a power of two.

use vstd::prelude::*;

mod checked;
mod discriminants;
mod error;
mod mask;
mod role_value;
mod unchecked;
mod utils;

pub use checked::BitRoleImpl;
pub use checked::RoleManager;
pub use checked::role_magnitudes;
pub use discriminants::InvalidDiscriminant;
pub use discriminants::check_discriminants;
pub use error::RoleError;
pub use mask::has_all_roles;
pub use mask::has_any_role;
pub use mask::has_role;
pub use mask::lemma_add_then_remove_restores;
pub use mask::lemma_empty_after_add_has_role;
pub use mask::popcount;
pub use mask::quiet_prefix_len;
pub use mask::single_role;
pub use mask::union_of;
pub use mask::valid_prefix_len;
pub use role_value::RoleValue;
pub use role_value::value_magnitudes;
pub use unchecked::BitRoleUncheckedImpl;
pub use unchecked::RoleManagerUnchecked;
pub use utils::is_valid_role;
pub use utils::is_validate_role;
pub use utils::negate;

verus! {

/// The role variant trait. All role enums must implement this trait by
/// giving the injective mapping from each symbolic role to its integer
/// magnitude.
pub trait RoleVariant: Copy + Sized {
    /// The magnitude the symbolic role maps to.
    spec fn spec_magnitude(self) -> usize;

    /// Returns the magnitude the symbolic role maps to.
    fn magnitude(self) -> (v: usize)
        ensures
            v == self.spec_magnitude(),
    ;
}

} // verus!
