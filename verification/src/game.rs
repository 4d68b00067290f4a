//! Implementations for a started game of battleship.

use crate::battlefield::grid::afloat;
use crate::battlefield::grid::grids_of;
use crate::battlefield::grid::in_bounds;
use crate::battlefield::grid::playable;
use crate::battlefield::grid::ships_known;
use crate::battlefield::grid::with_cell;
use crate::battlefield::ship_status::total;
use crate::battlefield::Battlefield;
use crate::battlefield::Grid;
use crate::battlefield::ShipStatus;
use crate::battlefield::ShipStatusView;
use crate::common::ship_type::catalog_of;
use crate::common::ship_type::lengths;
use crate::common::ship_type_container::copy_ship_types;
use crate::common::CellStatus;
use crate::common::Dimensional;
use crate::common::Player;
use crate::common::ShipType;
use crate::common::ShipTypeContainer;
use crate::common::ShipTypeView;
use crate::laws::play::lemma_shoot_keeps_in_step;
use crate::results::ShootError;
use crate::results::ShootOk;
use crate::Dimension;
use crate::ShipTypeId;
use vstd::prelude::*;

verus! {

/// Struct representing a running game of battleship.
#[derive(PartialEq, Debug)]
pub struct Game {
    ship_types: Vec<ShipType>,
    battlefields: Vec<Battlefield>,
    current_player: Player,
    ship_status: ShipStatus,
}

/// The state of a running game.
#[verifier::ext_equal]
pub struct GameView {
    /// The ship types of the game, each at the position that is its id.
    pub ship_types: Seq<ShipTypeView>,
    /// The battlefield of player 1, then that of player 2.
    pub boards: Seq<Grid>,
    /// What is left of each player's ships.
    pub status: ShipStatusView,
    /// The player whose turn it is.
    pub current_player: Player,
}

impl GameView {
    /// The battlefield that `player` owns.
    pub open spec fn board(self, player: Player) -> Grid {
        self.boards[player.index()]
    }

    /// Whether this is a state that a game can be in: two playable battlefields, and for each
    /// player one health counter for every ship type, which covers every ship on the
    /// battlefields.
    pub open spec fn valid(self) -> bool {
        &&& self.boards.len() == 2
        &&& playable(self.boards[0])
        &&& playable(self.boards[1])
        &&& ships_known(self.boards[0], self.ship_types.len() as int)
        &&& ships_known(self.boards[1], self.ship_types.len() as int)
        &&& self.status.valid()
        &&& self.status.p1.len() == self.ship_types.len()
        &&& self.ship_types.len() <= usize::MAX
    }

    /// Whether the health of the ship of type `id` of `player` is the number of its cells
    /// that were not shot at.
    pub open spec fn ship_in_step(self, player: Player, id: ShipTypeId) -> bool {
        let cells = afloat(self.board(player), id);
        &&& cells.finite()
        &&& cells.len() == self.status.of(player)[id as int]
    }

    /// Whether the health of every ship is the number of its cells that were not shot at. A
    /// game that was set up and started is in such a state, and stays in one.
    pub open spec fn in_step(self) -> bool {
        forall|player: Player, id: ShipTypeId|
            id < self.ship_types.len() ==> #[trigger] self.ship_in_step(player, id)
    }

    /// The state in which a game starts: nothing of the ships is lost, and player 1 moves.
    pub open spec fn initial(ship_types: Seq<ShipTypeView>, boards: Seq<Grid>) -> GameView {
        GameView {
            ship_types,
            boards,
            status: ShipStatusView::fresh(lengths(ship_types)),
            current_player: Player::P1,
        }
    }

    /// The player who has won: the opponent of a player with nothing left of any ship.
    pub open spec fn winner(self) -> Option<Player> {
        if self.status.sum_health(Player::P1) == 0 {
            Some(Player::P2)
        } else if self.status.sum_health(Player::P2) == 0 {
            Some(Player::P1)
        } else {
            None
        }
    }

    /// What a shot at column `x` of line `y` of the battlefield of `target` comes to.
    pub open spec fn shoot_result(self, target: Player, x: int, y: int) -> Result<
        ShootOk,
        ShootError,
    > {
        if target == self.current_player {
            Err(ShootError::NotThisPlayersTurn)
        } else if self.winner() is Some {
            Err(ShootError::GameOver)
        } else if !in_bounds(self.board(target), x, y) {
            Err(ShootError::OutOfBounds)
        } else if self.board(target)[y][x].shot {
            Err(ShootError::AlreadyShot)
        } else {
            match self.board(target)[y][x].ship_type_id {
                None => Ok(ShootOk::Miss),
                Some(id) => {
                    let status = self.status.hit(target, id as int);
                    if status.sum_health(target) == 0 {
                        Ok(ShootOk::WinningShot)
                    } else if status.of(target)[id as int] == 0 {
                        Ok(ShootOk::Destroyed)
                    } else {
                        Ok(ShootOk::Hit)
                    }
                },
            }
        }
    }

    /// The state after a shot at column `x` of line `y` of the battlefield of `target`. A shot
    /// that is refused changes nothing. One that is taken marks the cell; on a ship it costs
    /// that ship one of its health, on water it passes the turn to the other player.
    pub open spec fn shoot(self, target: Player, x: int, y: int) -> GameView {
        if self.shoot_result(target, x, y) is Err {
            self
        } else {
            let cell = self.board(target)[y][x];
            GameView {
                ship_types: self.ship_types,
                boards: self.boards.update(
                    target.index(),
                    with_cell(self.board(target), x, y, cell.shoot()),
                ),
                status: match cell.ship_type_id {
                    Some(id) => self.status.hit(target, id as int),
                    None => self.status,
                },
                current_player: match cell.ship_type_id {
                    Some(_) => self.current_player,
                    None => self.current_player.opponent(),
                },
            }
        }
    }

    /// What the owner sees of the cell at column `x` of line `y` of the battlefield of
    /// `player`: the ships and the hits on them, and no misses.
    pub open spec fn cell_status(self, player: Player, x: int, y: int) -> CellStatus {
        let cell = self.board(player)[y][x];
        if cell.occupied() {
            if cell.shot {
                CellStatus::Hit
            } else {
                CellStatus::Ship
            }
        } else {
            CellStatus::Empty
        }
    }

    /// What `player` sees of the cell at column `x` of line `y` of the battlefield that
    /// `player` shoots at, which is the opponent's: the hits and the misses, and no ship that
    /// was not hit.
    pub open spec fn opponent_cell_status(self, player: Player, x: int, y: int) -> CellStatus {
        let cell = self.board(player.opponent())[y][x];
        if cell.shot {
            if cell.occupied() {
                CellStatus::Hit
            } else {
                CellStatus::Miss
            }
        } else {
            CellStatus::Empty
        }
    }
}

impl View for Game {
    type V = GameView;

    closed spec fn view(&self) -> GameView {
        GameView {
            ship_types: catalog_of(self.ship_types@),
            boards: grids_of(self.battlefields@),
            status: self.ship_status@,
            current_player: self.current_player,
        }
    }
}

impl Game {
    /// Whether this game is in a state that a game can be in.
    pub open spec fn wf(&self) -> bool {
        self@.valid()
    }

    /// Creates a new instance. Use of this function is discouraged. You should rather go through
    /// the `PreGame` struct.
    /// # Parameters
    /// * `ship_types` A vector of `ShipType`s, each at the position that is its id.
    /// * `battlefields` A Vector of exactly two `Battlefield`s where player 1 owns the
    ///   battlefield at index 0 and player 2 owns the one at index 1.
    pub fn new(ship_types: Vec<ShipType>, battlefields: Vec<Battlefield>) -> (game: Self)
        requires
            battlefields@.len() == 2,
            battlefields@[0].wf(),
            battlefields@[1].wf(),
            ships_known(battlefields@[0]@, ship_types@.len() as int),
            ships_known(battlefields@[1]@, ship_types@.len() as int),
            total(lengths(catalog_of(ship_types@))) <= usize::MAX,
        ensures
            game.wf(),
            game@ == GameView::initial(catalog_of(ship_types@), grids_of(battlefields@)),
    {
        let ship_status = ShipStatus::new(&ship_types);
        assert(ship_types@.len() == ship_types.len());
        let game = Game {
            ship_types: ship_types,
            battlefields: battlefields,
            current_player: Player::P1,
            ship_status: ship_status,
        };
        game
    }

    /// This function determines who's turn it is.
    pub fn current_player(&self) -> (player: Player)
        ensures
            player == self@.current_player,
    {
        self.current_player
    }

    /// Shoot at a player's battlefield.
    /// # Parameters
    /// * `target_player` The player to be shot at.
    /// * `x` The x coordinate.
    /// * `y` The y coordinate.
    ///
    /// # Errors
    /// * `NotThisPlayersTurn` if `target_player` is the same as what's returned by
    ///   `current_player()`.
    /// * `GameOver` if the game is already finished.
    /// * `OutOfBounds` if the given coordinates are outside the boundaries of the battlefield.
    /// * `AlreadyShot` if the cell at the given coordinates was shot at before.
    ///
    /// The checks come in this order. A shot that is refused changes nothing. After a miss it
    /// is the other player's turn; after a hit the same player shoots again.
    pub fn shoot(&mut self, target_player: Player, x: Dimension, y: Dimension) -> (result: Result<
        ShootOk,
        ShootError,
    >)
        requires
            old(self).wf(),
        ensures
            final(self).wf(),
            result == old(self)@.shoot_result(target_player, x as int, y as int),
            final(self)@ == old(self)@.shoot(target_player, x as int, y as int),
            result is Err ==> final(self)@ == old(self)@,
            final(self)@.current_player != old(self)@.current_player <==> result == Ok::<
                ShootOk,
                ShootError,
            >(ShootOk::Miss),
            old(self)@.in_step() ==> final(self)@.in_step(),
    {
        proof {
            if self@.in_step() {
                lemma_shoot_keeps_in_step(self@, target_player, x as int, y as int);
            }
        }
        if self.current_player == target_player {
            return Err(ShootError::NotThisPlayersTurn);
        }
        if let Some(_) = self.get_winner() {
            return Err(ShootError::GameOver);
        }
        let bf_num: usize = if target_player == Player::P1 {
            0
        } else {
            1
        };
        let cell = match self.battlefields[bf_num].get_mut_cell(x, y) {
            Some(cell) => cell,
            None => {
                assert(self@ =~~= old(self)@);
                return Err(ShootError::OutOfBounds);
            },
        };
        if cell.is_shot() {
            assert(self@ =~~= old(self)@);
            return Err(ShootError::AlreadyShot);
        }
        cell.shoot();

        if let Some(ship_type_id) = cell.ship_type_id() {
            let new_health = self.ship_status.hit(target_player, ship_type_id);
            let sum_health = self.ship_status.get_sum_health(target_player);
            assert(self@ =~~= old(self)@.shoot(target_player, x as int, y as int));
            if sum_health == 0 {
                Ok(ShootOk::WinningShot)
            } else if new_health == 0 {
                Ok(ShootOk::Destroyed)
            } else {
                Ok(ShootOk::Hit)
            }
        } else {
            self.current_player = self.current_player.next();
            assert(self@ =~~= old(self)@.shoot(target_player, x as int, y as int));
            Ok(ShootOk::Miss)
        }
    }

    /// Gets the status of the cell (`x`, `y`) owned by `player`.
    /// Does not display missed shots, i.e. misses are considered `Empty` (see `get_opponent_cell`).
    /// # Parameters
    /// * `player` determines which battlefield to consider, i.e. the owner of the battlefield.
    /// * `x` the x coordinate
    /// * `y` the y coordinate
    ///
    /// The coordinates must lie within the battlefield.
    pub fn get_cell(&self, player: Player, x: Dimension, y: Dimension) -> (status: CellStatus)
        requires
            self.wf(),
            in_bounds(self@.board(player), x as int, y as int),
        ensures
            status == self@.cell_status(player, x as int, y as int),
    {
        let bf = if player == Player::P1 {
            &self.battlefields[0]
        } else {
            &self.battlefields[1]
        };
        let cell = bf.get_cell(x, y).unwrap();
        let filled = cell.ship_type_id().is_some();
        let shot = cell.is_shot();

        if filled {
            if shot {
                CellStatus::Hit
            } else {
                CellStatus::Ship
            }
        } else {
            CellStatus::Empty
        }
    }

    /// Gets the status of the cell (`x`, `y`) of the battlefield that `player` shoots at, as
    /// `player` gets to see it: the battlefield of the opponent under the fog of war.
    /// Does not display unhit ship cells, i.e. unhit ship cells are considered `Empty`.
    /// # Parameters
    /// * `player` the player who looks at the opponent's battlefield.
    /// * `x` the x coordinate
    /// * `y` the y coordinate
    ///
    /// The coordinates must lie within the battlefield.
    pub fn get_opponent_cell(&self, player: Player, x: Dimension, y: Dimension) -> (status:
        CellStatus)
        requires
            self.wf(),
            in_bounds(self@.board(player.opponent()), x as int, y as int),
        ensures
            status == self@.opponent_cell_status(player, x as int, y as int),
    {
        let bf = if player == Player::P1 {
            &self.battlefields[1]
        } else {
            &self.battlefields[0]
        };
        let cell = bf.get_cell(x, y).unwrap();
        let filled = cell.ship_type_id().is_some();
        let shot = cell.is_shot();

        if shot {
            if filled {
                CellStatus::Hit
            } else {
                CellStatus::Miss
            }
        } else {
            CellStatus::Empty
        }
    }

    /// Gets the winner of the game, if any.
    pub fn get_winner(&self) -> (winner: Option<Player>)
        requires
            self.wf(),
        ensures
            winner == self@.winner(),
    {
        if self.ship_status.get_sum_health(Player::P1) == 0 {
            Some(Player::P2)
        } else if self.ship_status.get_sum_health(Player::P2) == 0 {
            Some(Player::P1)
        } else {
            None
        }
    }
}

impl Dimensional for Game {
    open spec fn well_formed(&self) -> bool {
        self.wf()
    }

    open spec fn spec_width(&self) -> nat {
        self@.boards[0][0].len()
    }

    open spec fn spec_height(&self) -> nat {
        self@.boards[0].len()
    }

    fn width(&self) -> (width: Dimension) {
        self.battlefields[0].width()
    }

    fn height(&self) -> (height: Dimension) {
        self.battlefields[0].height()
    }
}

impl ShipTypeContainer for Game {
    open spec fn catalog(&self) -> Seq<ShipTypeView> {
        self@.ship_types
    }

    fn ship_types(&self) -> (ship_types: Vec<ShipType>) {
        copy_ship_types(&self.ship_types)
    }
}

} // verus!
