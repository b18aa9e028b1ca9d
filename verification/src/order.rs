//! The total order of UUIDs as a three-way comparison.

use std::cmp::Ordering;
use vstd::prelude::*;
use crate::value::Uuid;

verus! {

impl Uuid {
    /// How `self` stands to `other` in the order of the 128-bit values,
    /// which is the order of the sixteen bytes read from byte 0 on.
    pub fn compare(&self, other: &Uuid) -> (r: Ordering)
        ensures
            r == Ordering::Less <==> self@ < other@,
            r == Ordering::Equal <==> self@ == other@,
            r == Ordering::Greater <==> self@ > other@,
    {
        let a: u128 = self.to_u128();
        let b: u128 = other.to_u128();
        if a < b {
            Ordering::Less
        } else if a == b {
            Ordering::Equal
        } else {
            Ordering::Greater
        }
    }
}

} // verus!
