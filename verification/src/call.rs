//! Values that are taken from a function at the moment they are needed.
use vstd::prelude::*;

verus! {

/// What calling `source` gives. That it was called for the value, and not made up, is part of what
/// is promised.
pub fn value_of<T, F: Fn() -> T>(source: F) -> (value: T)
    requires
        call_requires(source, ()),
    ensures
        call_ensures(source, (), value),
{
    source()
}

} // verus!
