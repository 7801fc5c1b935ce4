//! A generic ordering helper.

use vstd::prelude::*;
use vstd::std_specs::cmp::OrdSpec;
use core::cmp::Ordering;

verus! {

/// Returns the greater of `a` and `b`; for types whose comparison obeys its
/// specification, the result is `a` exactly when `b` compares below `a`, and
/// `b` otherwise (so on a tie the second argument is returned).
pub fn max<T: Ord>(a: T, b: T) -> (r: T)
    ensures
        T::obeys_cmp_spec() ==> match b.cmp_spec(&a) {
            Ordering::Less => r == a,
            Ordering::Equal => r == b,
            Ordering::Greater => r == b,
        },
{
    a.max(b)
}

} // verus!
