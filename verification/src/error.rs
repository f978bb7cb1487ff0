use vstd::prelude::*;

verus! {

/// The error raised when working with role values.
#[derive(Debug, Clone, Copy, PartialEq, Eq, Structural)]
pub enum RoleError {
    /// Raised when the provided role holds a value that is neither zero nor a
    /// power of two.
    InvalidRole(usize),
}

} // verus!
