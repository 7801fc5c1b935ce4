//! Duration values in three units, comparable across units: a value in one
//! unit equals a value in a coarser unit exactly when they denote the same
//! span of time.

use vstd::prelude::*;

verus! {

/// A span of time in whole seconds.
#[derive(Debug)]
pub struct Seconds(pub u32);

/// A span of time in whole minutes.
#[derive(Debug)]
pub struct Minutes(pub u16);

/// A span of time in whole milliseconds.
#[derive(Debug)]
pub struct MilliSeconds(pub u64);

impl PartialEq<Minutes> for Seconds {
    fn eq(&self, other: &Minutes) -> (r: bool) {
        self.0 == (other.0 as u32) * 60
    }
}

impl vstd::std_specs::cmp::PartialEqSpecImpl<Minutes> for Seconds {
    open spec fn obeys_eq_spec() -> bool {
        true
    }

    open spec fn eq_spec(&self, other: &Minutes) -> bool {
        self.0 == other.0 * 60
    }
}

impl PartialEq<Minutes> for MilliSeconds {
    fn eq(&self, other: &Minutes) -> (r: bool) {
        self.0 == (other.0 as u64) * 60000
    }
}

impl vstd::std_specs::cmp::PartialEqSpecImpl<Minutes> for MilliSeconds {
    open spec fn obeys_eq_spec() -> bool {
        true
    }

    open spec fn eq_spec(&self, other: &Minutes) -> bool {
        self.0 == other.0 * 60000
    }
}

impl PartialEq<Seconds> for MilliSeconds {
    fn eq(&self, other: &Seconds) -> (r: bool) {
        self.0 == (other.0 as u64) * 1000
    }
}

impl vstd::std_specs::cmp::PartialEqSpecImpl<Seconds> for MilliSeconds {
    open spec fn obeys_eq_spec() -> bool {
        true
    }

    open spec fn eq_spec(&self, other: &Seconds) -> bool {
        self.0 == other.0 * 1000
    }
}

} // verus!
