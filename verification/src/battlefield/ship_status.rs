//! The health of the ships of both players.

use crate::common::ship_type::catalog_of;
use crate::common::ship_type::lengths;
use crate::common::Player;
use crate::common::ShipType;
use crate::Dimension;
use crate::ShipTypeId;
use vstd::prelude::*;

verus! {

/// The sum of the numbers in `health`.
pub open spec fn total(health: Seq<Dimension>) -> nat
    decreases health.len(),
{
    if health.len() == 0 {
        0
    } else {
        total(health.drop_last()) + health.last() as nat
    }
}

/// The sum of a prefix grows by the number that the prefix grows by.
pub proof fn lemma_total_take_next(health: Seq<Dimension>, n: int)
    requires
        0 <= n < health.len(),
    ensures
        total(health.take(n + 1)) == total(health.take(n)) + health[n],
{
    assert(health.take(n + 1).drop_last() =~= health.take(n));
}

/// No prefix sums to more than the whole.
pub proof fn lemma_total_take_bound(health: Seq<Dimension>, n: int)
    requires
        0 <= n <= health.len(),
    ensures
        total(health.take(n)) <= total(health),
    decreases health.len() - n,
{
    if n == health.len() {
        assert(health.take(n) =~= health);
    } else {
        lemma_total_take_next(health, n);
        lemma_total_take_bound(health, n + 1);
    }
}

/// Replacing one number changes the sum by the difference of the two.
pub proof fn lemma_total_update(health: Seq<Dimension>, i: int, value: Dimension)
    requires
        0 <= i < health.len(),
    ensures
        total(health.update(i, value)) == total(health) - health[i] + value,
    decreases health.len(),
{
    let updated = health.update(i, value);
    if i == health.len() - 1 {
        assert(updated.drop_last() =~= health.drop_last());
    } else {
        assert(updated.drop_last() =~= health.drop_last().update(i, value));
        lemma_total_update(health.drop_last(), i, value);
    }
}

/// Numbers that are all at least one sum to at least as many as there are.
pub proof fn lemma_total_at_least_len(health: Seq<Dimension>)
    requires
        forall|i: int| 0 <= i < health.len() ==> health[i] >= 1,
    ensures
        total(health) >= health.len(),
    decreases health.len(),
{
    if health.len() > 0 {
        assert forall|i: int| 0 <= i < health.drop_last().len() implies health.drop_last()[i]
            >= 1 by {
            assert(health.drop_last()[i] == health[i]);
        }
        lemma_total_at_least_len(health.drop_last());
    }
}

/// The sum is zero exactly when every number is.
pub proof fn lemma_total_zero(health: Seq<Dimension>)
    ensures
        total(health) == 0 <==> forall|i: int| 0 <= i < health.len() ==> health[i] == 0,
    decreases health.len(),
{
    if health.len() > 0 {
        lemma_total_zero(health.drop_last());
        if total(health) == 0 {
            assert forall|i: int| 0 <= i < health.len() implies health[i] == 0 by {
                if i < health.len() - 1 {
                    assert(health.drop_last()[i] == health[i]);
                }
            }
        }
        if forall|i: int| 0 <= i < health.len() ==> health[i] == 0 {
            assert forall|i: int| 0 <= i < health.drop_last().len() implies health.drop_last()[i]
                == 0 by {
                assert(health.drop_last()[i] == health[i]);
            }
        }
    }
}

/// The remaining health of every ship of both players. The health of the ship of type `id`
/// stands at position `id`.
#[derive(PartialEq, Debug)]
pub struct ShipStatus {
    status_p1: Vec<Dimension>,
    status_p2: Vec<Dimension>,
}

/// The health of the ships of player 1 and of player 2, each in the order of the ship types.
#[verifier::ext_equal]
pub struct ShipStatusView {
    pub p1: Seq<Dimension>,
    pub p2: Seq<Dimension>,
}

impl ShipStatusView {
    /// The status in which every ship has the full length of its type.
    pub open spec fn fresh(lengths: Seq<Dimension>) -> ShipStatusView {
        ShipStatusView { p1: lengths, p2: lengths }
    }

    /// The health of the ships of `player`.
    pub open spec fn of(self, player: Player) -> Seq<Dimension> {
        match player {
            Player::P1 => self.p1,
            Player::P2 => self.p2,
        }
    }

    /// What is left of all the ships of `player` together.
    pub open spec fn sum_health(self, player: Player) -> nat {
        total(self.of(player))
    }

    /// Whether both players have the same number of ships and each player's total health is a
    /// number the machine can hold.
    pub open spec fn valid(self) -> bool {
        &&& self.p1.len() == self.p2.len()
        &&& total(self.p1) <= usize::MAX
        &&& total(self.p2) <= usize::MAX
    }

    /// The health that the ship of type `ship_type_id` of `player` has after one more hit:
    /// one less than before, and zero if nothing was left of it.
    pub open spec fn health_after_hit(self, player: Player, ship_type_id: int) -> Dimension {
        let health = self.of(player)[ship_type_id];
        if health > 0 {
            (health - 1) as Dimension
        } else {
            0
        }
    }

    /// The status after a hit on the ship of type `ship_type_id` of `player`.
    pub open spec fn hit(self, player: Player, ship_type_id: int) -> ShipStatusView {
        let health = self.of(player).update(
            ship_type_id,
            self.health_after_hit(player, ship_type_id),
        );
        match player {
            Player::P1 => ShipStatusView { p1: health, ..self },
            Player::P2 => ShipStatusView { p2: health, ..self },
        }
    }
}

impl View for ShipStatus {
    type V = ShipStatusView;

    closed spec fn view(&self) -> ShipStatusView {
        ShipStatusView { p1: self.status_p1@, p2: self.status_p2@ }
    }
}

impl ShipStatus {
    /// Whether the status is one that `new` and `hit` lead to.
    pub open spec fn wf(&self) -> bool {
        self@.valid()
    }

    /// Sets out with both players' ships at full health: the length of their type.
    pub fn new(ship_types: &Vec<ShipType>) -> (status: Self)
        requires
            total(lengths(catalog_of(ship_types@))) <= usize::MAX,
        ensures
            status.wf(),
            status@ == ShipStatusView::fresh(lengths(catalog_of(ship_types@))),
    {
        let mut status_p1: Vec<Dimension> = Vec::new();
        let mut status_p2: Vec<Dimension> = Vec::new();
        let mut i: usize = 0;
        while i < ship_types.len()
            invariant
                i <= ship_types@.len(),
                status_p1@.len() == i,
                status_p2@.len() == i,
                forall|j: int| 0 <= j < i ==> status_p1@[j] == ship_types@[j]@.length,
                forall|j: int| 0 <= j < i ==> status_p2@[j] == ship_types@[j]@.length,
            decreases ship_types@.len() - i,
        {
            status_p1.push(ship_types[i].length());
            status_p2.push(ship_types[i].length());
            i += 1;
        }
        assert(status_p1@ =~= lengths(catalog_of(ship_types@)));
        assert(status_p2@ =~= lengths(catalog_of(ship_types@)));
        ShipStatus { status_p1, status_p2 }
    }

    /// Returns what is left of the ship of type `ship_type_id` of `player`.
    pub fn get_health(&self, player: Player, ship_type_id: ShipTypeId) -> (health: Dimension)
        requires
            ship_type_id < self@.of(player).len(),
        ensures
            health == self@.of(player)[ship_type_id as int],
    {
        match player {
            Player::P1 => self.status_p1[ship_type_id],
            Player::P2 => self.status_p2[ship_type_id],
        }
    }

    /// Returns what is left of all the ships of `player` together.
    pub fn get_sum_health(&self, player: Player) -> (sum: Dimension)
        requires
            self.wf(),
        ensures
            sum == self@.sum_health(player),
    {
        match player {
            Player::P1 => sum_of(&self.status_p1),
            Player::P2 => sum_of(&self.status_p2),
        }
    }

    /// Takes one off the health of the ship of type `ship_type_id` of `player`, unless nothing
    /// is left of it, and returns its new health.
    pub fn hit(&mut self, player: Player, ship_type_id: ShipTypeId) -> (health: Dimension)
        requires
            old(self).wf(),
            ship_type_id < old(self)@.of(player).len(),
        ensures
            final(self).wf(),
            final(self)@ == old(self)@.hit(player, ship_type_id as int),
            health == old(self)@.health_after_hit(player, ship_type_id as int),
    {
        proof {
            lemma_total_update(
                self@.of(player),
                ship_type_id as int,
                self@.health_after_hit(player, ship_type_id as int),
            );
        }
        match player {
            Player::P1 => {
                let curr_val = self.status_p1[ship_type_id];
                let new_val = if curr_val > 0 {
                    curr_val - 1
                } else {
                    0
                };
                self.status_p1[ship_type_id] = new_val;
                new_val
            },
            Player::P2 => {
                let curr_val = self.status_p2[ship_type_id];
                let new_val = if curr_val > 0 {
                    curr_val - 1
                } else {
                    0
                };
                self.status_p2[ship_type_id] = new_val;
                new_val
            },
        }
    }
}

/// Adds up the numbers in `health`.
fn sum_of(health: &Vec<Dimension>) -> (sum: Dimension)
    requires
        total(health@) <= usize::MAX,
    ensures
        sum == total(health@),
{
    let mut sum: Dimension = 0;
    let mut i: usize = 0;
    while i < health.len()
        invariant
            i <= health@.len(),
            sum == total(health@.take(i as int)),
            total(health@) <= usize::MAX,
        decreases health@.len() - i,
    {
        proof {
            lemma_total_take_next(health@, i as int);
            lemma_total_take_bound(health@, i + 1);
        }
        sum = sum + health[i];
        i += 1;
    }
    assert(health@.take(i as int) =~= health@);
    sum
}

} // verus!
