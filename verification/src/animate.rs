//! The capability that every kind of value that can be animated offers.

use vstd::prelude::*;
use crate::procedure::Procedure;

verus! {

/// Blends two values of one kind into a value of that kind.
///
/// The result is a `Result` for every kind alike: a kind whose values can be
/// of incompatible sorts answers `Err(())` for two values that cannot be
/// blended. What `animate` returns is a function of the two values and the
/// procedure, named by `animate_spec`.
pub trait Animate: Sized {
    /// The value that `animate` returns.
    spec fn animate_spec(&self, other: &Self, procedure: Procedure) -> Result<Self, ()>;

    /// Blends `self` with `other` as `procedure` says.
    fn animate(&self, other: &Self, procedure: Procedure) -> (result: Result<Self, ()>)
        ensures
            result == self.animate_spec(other, procedure),
    ;
}

} // verus!
