use vstd::prelude::*;
use crate::mask::single_role;
use crate::utils::is_valid_role;

verus! {

/// A rejected role type definition: the first declared discriminant that
/// is neither zero nor a power of two, together with its position in the
/// declaration order.
#[derive(Debug, Clone, Copy, PartialEq, Eq, Structural)]
pub struct InvalidDiscriminant {
    /// Position of the offending variant in the declaration order.
    pub index: usize,
    /// The offending magnitude.
    pub value: usize,
}

/// Definition-time check of a role type's declared mapping: every
/// declared discriminant must be zero or a power of two. Accepts the
/// mapping exactly when all magnitudes are valid; rejects it otherwise,
/// identifying the first offending variant and its value. A front end
/// runs this once per role type definition, so the checked manager can
/// skip runtime validation.
///
/// * `values` - The declared discriminants, in declaration order.
pub fn check_discriminants(values: &Vec<usize>) -> (r: Result<(), InvalidDiscriminant>)
    ensures
        (forall|i: int| 0 <= i < values@.len() ==> single_role(#[trigger] values@[i])) <==> r
            == Ok::<(), InvalidDiscriminant>(()),
        r matches Err(d) ==> d.index < values@.len() && d.value == values@[d.index as int]
            && !single_role(d.value) && (forall|j: int|
            0 <= j < d.index ==> single_role(#[trigger] values@[j])),
{
    for i in 0..values.len()
        invariant
            forall|j: int| 0 <= j < i ==> single_role(#[trigger] values@[j]),
    {
        if !is_valid_role(values[i]) {
            return Err(InvalidDiscriminant { index: i, value: values[i] });
        }
    }
    Ok(())
}

} // verus!
