//! `==` and `<` on UUIDs, and `==` between a UUID and bare bytes. The order
//! is that of the bytes, as `cmp` has it too.

use crate::order::{comes_before, first_difference};
use crate::value::Uuid;
use core::cmp::Ordering;
use vstd::prelude::*;

verus! {

impl PartialEq for Uuid {
    fn eq(&self, other: &Uuid) -> (r: bool) {
        first_difference(self.as_bytes(), other.as_bytes()) == 16
    }
}

impl vstd::std_specs::cmp::PartialEqSpecImpl for Uuid {
    open spec fn obeys_eq_spec() -> bool {
        true
    }

    open spec fn eq_spec(&self, other: &Uuid) -> bool {
        self@ == other@
    }
}

impl Eq for Uuid {}

impl PartialEq<[u8; 16]> for Uuid {
    fn eq(&self, other: &[u8; 16]) -> (r: bool) {
        first_difference(self.as_bytes(), other) == 16
    }
}

impl vstd::std_specs::cmp::PartialEqSpecImpl<[u8; 16]> for Uuid {
    open spec fn obeys_eq_spec() -> bool {
        true
    }

    open spec fn eq_spec(&self, other: &[u8; 16]) -> bool {
        self@ == other@
    }
}

impl PartialOrd for Uuid {
    fn partial_cmp(&self, other: &Uuid) -> (r: Option<Ordering>) {
        let a = self.as_bytes();
        let b = other.as_bytes();
        let i = first_difference(a, b);
        if i == 16 {
            Some(Ordering::Equal)
        } else if a[i] < b[i] {
            Some(Ordering::Less)
        } else {
            proof {
                crate::order::lemma_order_is_total(a@, b@);
            }
            Some(Ordering::Greater)
        }
    }
}

impl vstd::std_specs::cmp::PartialOrdSpecImpl for Uuid {
    open spec fn obeys_partial_cmp_spec() -> bool {
        true
    }

    open spec fn partial_cmp_spec(&self, other: &Uuid) -> Option<Ordering> {
        if self@ == other@ {
            Some(Ordering::Equal)
        } else if comes_before(self@, other@) {
            Some(Ordering::Less)
        } else {
            Some(Ordering::Greater)
        }
    }
}

} // verus!
