//! Things that hold ship types.

use crate::common::ship_type::catalog_of;
use crate::common::ship_type::ShipType;
use crate::common::ship_type::ShipTypeView;
use vstd::prelude::*;

verus! {

/// Denotes a type that holds ship types.
pub trait ShipTypeContainer {
    /// The ship types that this object holds, in the order in which they were added.
    spec fn catalog(&self) -> Seq<ShipTypeView>;

    /// Returns a copy of the list of ship types.
    fn ship_types(&self) -> (ship_types: Vec<ShipType>)
        ensures
            catalog_of(ship_types@) == self.catalog(),
    ;
}

/// Copies a list of ship types.
pub(crate) fn copy_ship_types(ship_types: &Vec<ShipType>) -> (copy: Vec<ShipType>)
    ensures
        copy@ == ship_types@,
{
    let mut copy: Vec<ShipType> = Vec::new();
    let mut i: usize = 0;
    while i < ship_types.len()
        invariant
            i <= ship_types@.len(),
            copy@ == ship_types@.take(i as int),
        decreases ship_types@.len() - i,
    {
        copy.push(ship_types[i]);
        assert(ship_types@.take(i + 1) =~= ship_types@.take(i as int).push(ship_types@[i as int]));
        i += 1;
    }
    assert(ship_types@.take(i as int) =~= ship_types@);
    copy
}

} // verus!
