//! `==` and `<` between versions.

use crate::precedence::Precedence;
use crate::version::Version;
use std::cmp::Ordering;
use vstd::prelude::*;

verus! {

impl PartialEq for Version {
    /// Two versions are equal where neither comes before the other.
    fn eq(&self, other: &Version) -> (r: bool) {
        match self.precedence(other) {
            Precedence::Same => true,
            _ => false,
        }
    }
}

impl vstd::std_specs::cmp::PartialEqSpecImpl for Version {
    open spec fn obeys_eq_spec() -> bool {
        true
    }

    open spec fn eq_spec(&self, other: &Version) -> bool {
        self@.precedence(other@) == Precedence::Same
    }
}

impl Eq for Version {

}

impl PartialOrd for Version {
    /// Versions are ordered by their precedence.
    fn partial_cmp(&self, other: &Version) -> (r: Option<Ordering>) {
        match self.precedence(other) {
            Precedence::Lower => Some(Ordering::Less),
            Precedence::Same => Some(Ordering::Equal),
            Precedence::Higher => Some(Ordering::Greater),
        }
    }
}

impl vstd::std_specs::cmp::PartialOrdSpecImpl for Version {
    open spec fn obeys_partial_cmp_spec() -> bool {
        true
    }

    open spec fn partial_cmp_spec(&self, other: &Version) -> Option<Ordering> {
        match self@.precedence(other@) {
            Precedence::Lower => Some(Ordering::Less),
            Precedence::Same => Some(Ordering::Equal),
            Precedence::Higher => Some(Ordering::Greater),
        }
    }
}

} // verus!
