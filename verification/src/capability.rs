//! The two capabilities a handle can carry.

use vstd::prelude::*;

verus! {

/// Keeps the set of capability tags closed: the trait is private to this
/// module, so no type outside it can become a tag.
trait Sealed {
}

impl Sealed for Mutable {
}

impl Sealed for Immutable {
}

/// A capability tag. It is chosen once, as a type parameter of a handle, and
/// decides which operations that handle offers. [`Mutable`] and [`Immutable`]
/// are the only tags there are.
#[allow(private_bounds)]
pub trait ProbablyMutable: Sealed {
    /// Whether handles carrying this tag may change the resource they refer to.
    spec fn grants_mutation() -> bool;

    /// Reports at run time what the tag stands for.
    fn is_mutable(&self) -> (mutable: bool)
        ensures
            mutable == Self::grants_mutation(),
    ;
}

/// Tag of a handle that may change its resource. At most one such handle into
/// a given parent is alive at a time.
pub struct Mutable;

/// Tag of a handle that may only observe its resource.
pub struct Immutable;

impl ProbablyMutable for Mutable {
    open spec fn grants_mutation() -> bool {
        true
    }

    fn is_mutable(&self) -> (mutable: bool)
        ensures
            mutable,
    {
        true
    }
}

impl ProbablyMutable for Immutable {
    open spec fn grants_mutation() -> bool {
        false
    }

    fn is_mutable(&self) -> (mutable: bool)
        ensures
            !mutable,
    {
        false
    }
}

} // verus!
