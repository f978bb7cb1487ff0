use vstd::prelude::*;
use crate::mask::lemma_single_bit_popcount;
use crate::mask::single_role;

verus! {

/// Validates a role value: it must be zero or a power of two.
///
/// * `value` - The value of role.
pub fn is_valid_role(value: usize) -> (r: bool)
    ensures
        r == single_role(value),
{
    if value == 0 {
        true
    } else {
        proof {
            lemma_single_bit_popcount(value);
        }
        value & (value - 1) == 0
    }
}

/// Validates a role value: it must be zero or a power of two.
///
/// * `value` - The value of role.
pub fn is_validate_role(value: usize) -> (r: bool)
    ensures
        r == single_role(value),
{
    is_valid_role(value)
}

/// Negates the boolean value.
///
/// * `value` - The value to be negated.
pub fn negate(value: bool) -> (r: bool)
    ensures
        r == !value,
{
    !value
}

} // verus!
