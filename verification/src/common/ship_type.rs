//! The types of ships that a game is played with.

use crate::Dimension;
use crate::ShipTypeId;
use vstd::prelude::*;
use vstd::std_specs::cmp::PartialEqSpecImpl;
use vstd::string::StringSliceAdditionalSpecFns;

verus! {

/// Represents a ship type in the game.
#[derive(Copy, Clone, Debug)]
pub struct ShipType {
    id: ShipTypeId,
    name: &'static str,
    length: Dimension,
}

/// What a ship type is made of: its id, the characters of its name and its length.
#[verifier::ext_equal]
pub struct ShipTypeView {
    pub id: ShipTypeId,
    pub name: Seq<char>,
    pub length: Dimension,
}

impl View for ShipType {
    type V = ShipTypeView;

    closed spec fn view(&self) -> ShipTypeView {
        ShipTypeView { id: self.id, name: self.name@, length: self.length }
    }
}

/// What a list of ship types is made of, one after the other.
pub open spec fn catalog_of(ship_types: Seq<ShipType>) -> Seq<ShipTypeView> {
    Seq::new(ship_types.len(), |i: int| ship_types[i]@)
}

/// The lengths of the ship types in `catalog`, one after the other.
pub open spec fn lengths(catalog: Seq<ShipTypeView>) -> Seq<Dimension> {
    Seq::new(catalog.len(), |i: int| catalog[i].length)
}

impl ShipType {
    /// Create a new ship type.
    /// # Parameters
    /// * `id` the id of the ship type.
    /// * `name` the name of the ship type.
    /// * `length` The length of the ship type.
    pub fn new(id: ShipTypeId, name: &'static str, length: Dimension) -> (ship_type: Self)
        ensures
            ship_type@ == (ShipTypeView { id, name: name@, length }),
    {
        ShipType { id: id, name: name, length: length }
    }

    /// Returns the id.
    pub fn id(&self) -> (id: ShipTypeId)
        ensures
            id == self@.id,
    {
        self.id
    }

    /// Returns the name.
    pub fn name(&self) -> (name: &'static str)
        ensures
            name@ == self@.name,
    {
        self.name
    }

    /// Returns the length.
    pub fn length(&self) -> (length: Dimension)
        ensures
            length == self@.length,
    {
        self.length
    }
}

/// Tells whether two texts hold the same characters.
fn same_text(a: &str, b: &str) -> (same: bool)
    ensures
        same == (a@ == b@),
{
    let x = a.as_bytes();
    let y = b.as_bytes();
    proof {
        // A text is determined by its UTF-8 encoding.
        vstd::utf8::encode_utf8_decode_utf8(a@);
        vstd::utf8::encode_utf8_decode_utf8(b@);
    }
    if x.len() != y.len() {
        return false;
    }
    let mut i: usize = 0;
    while i < x.len()
        invariant
            i <= x@.len(),
            x@.len() == y@.len(),
            x@ == a.spec_bytes(),
            y@ == b.spec_bytes(),
            forall|j: int| 0 <= j < i ==> x@[j] == y@[j],
        decreases x@.len() - i,
    {
        if x[i] != y[i] {
            return false;
        }
        i += 1;
    }
    assert(x@ =~= y@);
    true
}

impl PartialEq for ShipType {
    /// Two ship types are equal when id, name and length all agree.
    fn eq(&self, other: &ShipType) -> (equal: bool) {
        self.id == other.id && self.length == other.length && same_text(self.name, other.name)
    }
}

impl PartialEqSpecImpl for ShipType {
    open spec fn obeys_eq_spec() -> bool {
        true
    }

    open spec fn eq_spec(&self, other: &ShipType) -> bool {
        self@ == other@
    }
}

} // verus!
