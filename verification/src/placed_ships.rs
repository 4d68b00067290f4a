//! The record of which player has placed which ship.

use crate::common::Player;
use crate::ShipTypeId;
use vstd::prelude::*;

verus! {

/// A set of pairs of a player and a ship type id. It holds a pair for every ship that has
/// been placed.
///
/// The pairs stand in a vector in which none occurs twice, and not in a
/// `std::collections::HashSet`: what vstd says of a hash set holds for keys that obey its
/// model of hashing, which it grants to primitive types only. Of a set of such pairs Verus
/// accepts the calls and proves nothing, not even its length after one insertion.
#[derive(PartialEq, Debug)]
pub struct PlacedShips {
    entries: Vec<(Player, ShipTypeId)>,
}

impl View for PlacedShips {
    type V = Set<(Player, ShipTypeId)>;

    closed spec fn view(&self) -> Set<(Player, ShipTypeId)> {
        self.entries@.to_set()
    }
}

impl PlacedShips {
    /// No pair is recorded twice.
    #[verifier::type_invariant]
    spec fn distinct(&self) -> bool {
        self.entries@.no_duplicates()
    }

    /// Creates the empty set.
    pub fn new() -> (placed: Self)
        ensures
            placed@ == Set::<(Player, ShipTypeId)>::empty(),
    {
        let placed = PlacedShips { entries: Vec::new() };
        assert(placed@ =~= Set::<(Player, ShipTypeId)>::empty());
        placed
    }

    /// Returns the number of pairs in the set.
    pub fn len(&self) -> (len: usize)
        ensures
            self@.finite(),
            len == self@.len(),
    {
        proof {
            use_type_invariant(self);
            self.entries@.unique_seq_to_set();
        }
        self.entries.len()
    }

    /// Tells whether the ship of type `ship_type_id` of `player` is in the set.
    pub fn contains(&self, player: Player, ship_type_id: ShipTypeId) -> (found: bool)
        ensures
            found == self@.contains((player, ship_type_id)),
    {
        let mut i: usize = 0;
        while i < self.entries.len()
            invariant
                i <= self.entries@.len(),
                forall|j: int| 0 <= j < i ==> self.entries@[j] != (player, ship_type_id),
            decreases self.entries@.len() - i,
        {
            let (p, id) = self.entries[i];
            if p == player && id == ship_type_id {
                return true;
            }
            i += 1;
        }
        false
    }

    /// Adds the ship of type `ship_type_id` of `player` to the set. Returns whether it was
    /// missing before.
    pub fn insert(&mut self, player: Player, ship_type_id: ShipTypeId) -> (added: bool)
        ensures
            final(self)@ == old(self)@.insert((player, ship_type_id)),
            added == !old(self)@.contains((player, ship_type_id)),
    {
        proof {
            use_type_invariant(&*self);
        }
        if self.contains(player, ship_type_id) {
            assert(self@ =~= self@.insert((player, ship_type_id)));
            false
        } else {
            let mut entries: Vec<(Player, ShipTypeId)> = Vec::new();
            std::mem::swap(&mut entries, &mut self.entries);
            entries.push((player, ship_type_id));
            self.entries = entries;
            proof {
                old(self).entries@.lemma_push_to_set_commute((player, ship_type_id));
            }
            true
        }
    }
}

} // verus!
