//! Everything you need to set up a game of battleship.

use crate::battlefield::grid::blank_grid;
use crate::battlefield::grid::grids_of;
use crate::battlefield::grid::has_dimensions;
use crate::battlefield::grid::in_bounds;
use crate::battlefield::grid::ship_cells;
use crate::battlefield::ship_status::total;
use crate::battlefield::Battlefield;
use crate::battlefield::Grid;
use crate::common::ship_type::catalog_of;
use crate::common::ship_type::lengths;
use crate::common::ship_type_container::copy_ship_types;
use crate::common::CellStatus;
use crate::common::Dimensional;
use crate::common::Orientation;
use crate::common::Player;
use crate::common::ShipType;
use crate::common::ShipTypeContainer;
use crate::common::ShipTypeView;
use crate::game::Game;
use crate::game::GameView;
use crate::laws::setup::lemma_add_ship_type_keeps_valid;
use crate::laws::setup::lemma_add_ship_type_total_length;
use crate::laws::setup::lemma_game_starts_in_step;
use crate::laws::setup::lemma_place_ship_keeps_valid;
use crate::placed_ships::PlacedShips;
use crate::placement::covers;
use crate::placement::lemma_span_lists_no_cell_twice;
use crate::placement::lemma_span_lists_what_is_covered;
use crate::placement::lemma_with_ship_at_span;
use crate::placement::lemma_lists_take_next;
use crate::placement::lists;
use crate::placement::span;
use crate::placement::with_ship;
use crate::placement::with_ship_at;
use crate::results::GameError;
use crate::results::GameStartError;
use crate::results::PlaceError;
use crate::results::ShipTypeError;
use crate::Dimension;
use crate::ShipTypeId;
use vstd::prelude::*;

verus! {

/// Whether no cell of `grid` was shot at, and every ship on it is one that `player` has
/// placed according to `placed_ships`.
pub open spec fn set_up(
    grid: Grid,
    player: Player,
    placed_ships: Set<(Player, ShipTypeId)>,
) -> bool {
    forall|x: int, y: int|
        in_bounds(grid, x, y) ==> {
            let cell = #[trigger] grid[y][x];
            &&& !cell.shot
            &&& cell.ship_type_id matches Some(id) ==> placed_ships.contains((player, id))
        }
}

/// Builder type for a game of battleship.
#[derive(PartialEq, Debug)]
pub struct PreGame {
    width: Dimension,
    height: Dimension,
    ship_types: Vec<ShipType>,
    placed_ships: PlacedShips,
    battlefields: Vec<Battlefield>,
}

/// The state of a game that is being set up.
#[verifier::ext_equal]
pub struct PreGameView {
    /// The number of columns of both battlefields.
    pub width: Dimension,
    /// The number of lines of both battlefields.
    pub height: Dimension,
    /// The ship types added so far, each at the position that is its id.
    pub ship_types: Seq<ShipTypeView>,
    /// The ships placed so far, each given by its owner and the id of its type.
    pub placed_ships: Set<(Player, ShipTypeId)>,
    /// The battlefield of player 1, then that of player 2.
    pub boards: Seq<Grid>,
}

impl PreGameView {
    /// The battlefield that `player` owns.
    pub open spec fn board(self, player: Player) -> Grid {
        self.boards[player.index()]
    }

    /// The longest ship that the battlefield has room for in one of the two orientations.
    pub open spec fn max_ship_length(self) -> Dimension {
        if self.width >= self.height {
            self.width
        } else {
            self.height
        }
    }

    /// Whether there are two battlefields, both of the width and height of this game.
    pub open spec fn shaped(self) -> bool {
        &&& self.boards.len() == 2
        &&& has_dimensions(self.boards[0], self.width as int, self.height as int)
        &&& has_dimensions(self.boards[1], self.width as int, self.height as int)
    }

    /// Whether the ship of type `id` of `player` is on the battlefield in full if it was
    /// placed, covering as many cells as its type is long, and not at all if it was not.
    pub open spec fn ship_in_place(self, player: Player, id: ShipTypeId) -> bool {
        let cells = ship_cells(self.board(player), id);
        &&& cells.finite()
        &&& cells.len() == if self.placed_ships.contains((player, id)) {
            self.ship_types[id as int].length
        } else {
            0
        }
    }

    /// Whether this is a state that setting up a game can lead to.
    pub open spec fn valid(self) -> bool {
        &&& self.width >= 1
        &&& self.height >= 2
        &&& self.shaped()
        &&& forall|i: int|
            0 <= i < self.ship_types.len() ==> {
                let ship_type = #[trigger] self.ship_types[i];
                &&& ship_type.id == i
                &&& 1 <= ship_type.length <= self.max_ship_length()
            }
        &&& self.total_length() <= usize::MAX
        &&& self.placed_ships.finite()
        &&& forall|player: Player, id: ShipTypeId|
            self.placed_ships.contains((player, id)) ==> id < self.ship_types.len()
        &&& set_up(self.boards[0], Player::P1, self.placed_ships)
        &&& set_up(self.boards[1], Player::P2, self.placed_ships)
        &&& forall|player: Player, id: ShipTypeId|
            id < self.ship_types.len() ==> #[trigger] self.ship_in_place(player, id)
    }

    /// The state that setting up a game on battlefields of `width` columns and `height` lines
    /// starts in: no ship types, no ships.
    pub open spec fn initial(width: Dimension, height: Dimension) -> PreGameView {
        PreGameView {
            width,
            height,
            ship_types: Seq::empty(),
            placed_ships: Set::empty(),
            boards: seq![
                blank_grid(width as int, height as int),
                blank_grid(width as int, height as int),
            ],
        }
    }

    /// The lengths of all ship types together: the health that each player starts with.
    pub open spec fn total_length(self) -> nat {
        total(lengths(self.ship_types))
    }

    /// Whether the total length of the ship types together with one more of `length` is a
    /// number the machine can hold.
    pub open spec fn has_room_for(self, length: Dimension) -> bool {
        self.total_length() + length <= usize::MAX
    }

    /// What adding a ship type of the given name and length comes to: the new ship type, which
    /// gets the next free id, unless the length is refused.
    pub open spec fn add_ship_type_result(self, name: Seq<char>, length: Dimension) -> Result<
        ShipTypeView,
        ShipTypeError,
    > {
        if length == 0 {
            Err(ShipTypeError::IllegalShipLength)
        } else if length > self.max_ship_length() {
            Err(ShipTypeError::ShipTooLongForBattlefield)
        } else {
            Ok(ShipTypeView { id: self.ship_types.len() as ShipTypeId, name, length })
        }
    }

    /// The state after adding a ship type of the given name and length.
    pub open spec fn add_ship_type(self, name: Seq<char>, length: Dimension) -> PreGameView {
        match self.add_ship_type_result(name, length) {
            Ok(ship_type) => PreGameView { ship_types: self.ship_types.push(ship_type), ..self },
            Err(_) => self,
        }
    }

    /// Whether `ship_type` is one of the ship types added so far.
    pub open spec fn knows(self, ship_type: ShipTypeView) -> bool {
        self.ship_types.contains(ship_type)
    }

    /// Whether a ship of `length` cells that starts at column `x` of line `y` lies on the
    /// battlefield with all its cells.
    pub open spec fn fits(self, x: int, y: int, length: int, orientation: Orientation) -> bool {
        &&& 0 <= x
        &&& 0 <= y
        &&& match orientation {
            Orientation::Horizontal => x + length <= self.width && y < self.height,
            Orientation::Vertical => x < self.width && y + length <= self.height,
        }
    }

    /// Whether none of the cells that such a ship covers on the battlefield of `player` has
    /// a ship on it.
    pub open spec fn free(
        self,
        player: Player,
        x: int,
        y: int,
        length: int,
        orientation: Orientation,
    ) -> bool {
        forall|cx: int, cy: int|
            in_bounds(self.board(player), cx, cy) && covers(x, y, length, orientation, cx, cy)
                ==> !(#[trigger] self.board(player)[cy][cx]).occupied()
    }

    /// What placing the ship of type `ship_type` of `player` at column `x` of line `y` comes
    /// to: the first of the four checks that fails, or success.
    pub open spec fn place_ship_result(
        self,
        player: Player,
        ship_type: ShipTypeView,
        x: int,
        y: int,
        orientation: Orientation,
    ) -> Result<(), PlaceError> {
        if !self.knows(ship_type) {
            Err(PlaceError::UnknownShipType)
        } else if self.placed_ships.contains((player, ship_type.id)) {
            Err(PlaceError::AlreadyPlaced)
        } else if !self.fits(x, y, ship_type.length as int, orientation) {
            Err(PlaceError::OutOfBounds)
        } else if !self.free(player, x, y, ship_type.length as int, orientation) {
            Err(PlaceError::CellOccupied)
        } else {
            Ok(())
        }
    }

    /// The state after placing the ship of type `ship_type` of `player` at column `x` of line
    /// `y`. A placement that is refused changes nothing. One that is accepted puts the ship on
    /// every cell it covers on the battlefield of `player`, and records it as placed.
    pub open spec fn place_ship(
        self,
        player: Player,
        ship_type: ShipTypeView,
        x: int,
        y: int,
        orientation: Orientation,
    ) -> PreGameView {
        if self.place_ship_result(player, ship_type, x, y, orientation) is Err {
            self
        } else {
            PreGameView {
                placed_ships: self.placed_ships.insert((player, ship_type.id)),
                boards: self.boards.update(
                    player.index(),
                    with_ship(
                        self.board(player),
                        ship_type.id,
                        x,
                        y,
                        ship_type.length as int,
                        orientation,
                    ),
                ),
                ..self
            }
        }
    }

    /// Whether every player has placed a ship of every type.
    pub open spec fn all_ships_placed(self) -> bool {
        forall|player: Player, id: ShipTypeId|
            id < self.ship_types.len() ==> self.placed_ships.contains((player, id))
    }

    /// What keeps the game from starting, if anything: that no ship was placed, or that not
    /// every player has placed a ship of every type.
    pub open spec fn start_error(self) -> Option<GameStartError> {
        if self.placed_ships.len() == 0 {
            Some(GameStartError::NoShipsPlaced)
        } else if self.placed_ships.len() != 2 * self.ship_types.len() {
            Some(GameStartError::NotAllShipsPlaced)
        } else {
            None
        }
    }

    /// What there is to see of the cell at column `x` of line `y` of the battlefield of
    /// `player` while the game is set up: whether a ship is on it.
    pub open spec fn cell_status(self, player: Player, x: int, y: int) -> CellStatus {
        if self.board(player)[y][x].occupied() {
            CellStatus::Ship
        } else {
            CellStatus::Empty
        }
    }
}

impl View for PreGame {
    type V = PreGameView;

    closed spec fn view(&self) -> PreGameView {
        PreGameView {
            width: self.width,
            height: self.height,
            ship_types: catalog_of(self.ship_types@),
            placed_ships: self.placed_ships@,
            boards: grids_of(self.battlefields@),
        }
    }
}

/// Builder style struct for battleship.
impl PreGame {
    /// Whether this game is in a state that setting up a game can lead to.
    pub open spec fn wf(&self) -> bool {
        self@.valid()
    }

    /// Creates a new instance.
    /// # Parameters
    /// * `width` The number of columns
    /// * `height` The number of lines
    ///
    /// # Errors
    /// * `IllegalDimensions` will be returned if `width` is less than 1 or `height` is less
    ///   than 2.
    pub fn new(width: Dimension, height: Dimension) -> (result: Result<PreGame, GameError>)
        ensures
            match result {
                Ok(pregame) => {
                    &&& width >= 1
                    &&& height >= 2
                    &&& pregame.wf()
                    &&& pregame@ == PreGameView::initial(width, height)
                    &&& pregame@.total_length() == 0
                },
                Err(error) => {
                    &&& width < 1 || height < 2
                    &&& error == GameError::IllegalDimensions
                },
            },
    {
        let bf1 = match Battlefield::new(width, height) {
            Ok(battlefield) => battlefield,
            Err(error) => {
                return Err(error);
            },
        };
        let bf2 = bf1.clone();
        let mut battlefields: Vec<Battlefield> = Vec::new();
        battlefields.push(bf1);
        battlefields.push(bf2);
        let pregame = PreGame {
            width: width,
            height: height,
            ship_types: Vec::new(),
            placed_ships: PlacedShips::new(),
            battlefields: battlefields,
        };
        assert(pregame@ =~~= PreGameView::initial(width, height));
        Ok(pregame)
    }

    /// Consume this `PreGame` and provide a `Game` from it.
    /// Requires that both players have placed all their ships.
    /// # Errors
    /// * `NoShipsPlaced` if no player has placed any ships yet
    /// * `NotAllShipsPlaced` if not all ships have been placed yet
    ///
    /// With the error comes this `PreGame`, unchanged. The `Game` starts on the battlefields of
    /// this `PreGame` with every ship at full health, with player 1 to move and without a
    /// winner.
    pub fn start(self) -> (result: Result<Game, (Self, GameStartError)>)
        requires
            self.wf(),
        ensures
            match result {
                Ok(game) => {
                    &&& self@.start_error() is None
                    &&& game.wf()
                    &&& game@ == GameView::initial(self@.ship_types, self@.boards)
                    &&& game@.in_step()
                    &&& game@.winner() is None
                },
                Err((pregame, error)) => {
                    &&& self@.start_error() == Some(error)
                    &&& pregame == self
                },
            },
    {
        let placed = self.placed_ships.len();
        proof {
            if self@.start_error() is None {
                lemma_game_starts_in_step(self@);
            }
        }
        if placed == 0 {
            Err((self, GameStartError::NoShipsPlaced))
        } else {
            match self.ship_types.len().checked_mul(2) {
                Some(all) if all == placed => Ok(Game::new(self.ship_types, self.battlefields)),
                _ => Err((self, GameStartError::NotAllShipsPlaced)),
            }
        }
    }

    /// Add a ship type to the game. Returns the new ship type, whose id is the number of ship
    /// types added before it.
    /// # Parameters
    /// * `name` The name of the ship type.
    /// * `length` The length of the ship type.
    ///
    /// # Errors
    /// * `IllegalShipLength` If the ship type's length is smaller than 1.
    /// * `ShipTooLongForBattlefield` If the ship length is longer than the width and the height
    ///   of the battlefield.
    ///
    /// The lengths of all ship types of a game together must be a number that a `Dimension`
    /// can hold: a ship type that is accepted must leave the total within that range.
    pub fn add_ship_type(&mut self, name: &'static str, length: Dimension) -> (result: Result<
        ShipType,
        ShipTypeError,
    >)
        requires
            old(self).wf(),
            old(self)@.add_ship_type_result(name@, length) is Ok ==> old(self)@.has_room_for(
                length,
            ),
        ensures
            final(self).wf(),
            final(self)@ == old(self)@.add_ship_type(name@, length),
            final(self)@.total_length() == old(self)@.total_length() + if result is Ok {
                length as nat
            } else {
                0
            },
            match result {
                Ok(ship_type) => old(self)@.add_ship_type_result(name@, length) == Ok::<
                    ShipTypeView,
                    ShipTypeError,
                >(ship_type@),
                Err(error) => old(self)@.add_ship_type_result(name@, length) == Err::<
                    ShipTypeView,
                    ShipTypeError,
                >(error),
            },
    {
        if length == 0 {
            Err(ShipTypeError::IllegalShipLength)
        } else if length > self.width && length > self.height {
            Err(ShipTypeError::ShipTooLongForBattlefield)
        } else {
            let typ = ShipType::new(self.ship_types.len(), name, length);
            self.ship_types.push(typ);
            proof {
                assert(self@.ship_types =~= old(self)@.ship_types.push(typ@));
                lemma_add_ship_type_keeps_valid(old(self)@, name@, length);
                lemma_add_ship_type_total_length(old(self)@, name@, length);
            }
            Ok(typ)
        }
    }

    /// Place a ship of a previously added ship type on the battlefield.
    /// # Parameters
    /// * `player` The player who owns the ship
    /// * `ship_type` Ref to the ship type of the ship to be placed.
    /// * `x` The x coordinate of the ship
    /// * `y` The y coordinate of the ship
    /// * `orientation` The orientation of the ship
    ///
    /// # Errors
    /// * `UnknownShipType` If the ship type is none that was added to this game.
    /// * `AlreadyPlaced` In case the player has already placed a ship of that ship type.
    /// * `OutOfBounds` If the ship would exceed any boundary of the battlefield.
    /// * `CellOccupied` If the ship would occupy an already occupied coordinate.
    ///
    /// The checks come in this order. A placement that is refused leaves the game as it was.
    pub fn place_ship(
        &mut self,
        player: Player,
        ship_type: &ShipType,
        x: Dimension,
        y: Dimension,
        orientation: Orientation,
    ) -> (result: Result<(), PlaceError>)
        requires
            old(self).wf(),
        ensures
            final(self).wf(),
            result == old(self)@.place_ship_result(
                player,
                ship_type@,
                x as int,
                y as int,
                orientation,
            ),
            final(self)@ == old(self)@.place_ship(
                player,
                ship_type@,
                x as int,
                y as int,
                orientation,
            ),
            result is Err ==> final(self)@ == old(self)@,
    {
        self.assert_ship_type_known(ship_type)?;
        self.assert_ship_not_yet_placed(player, ship_type.id())?;
        self.assert_ship_placement_in_bounds(ship_type, x, y, orientation)?;
        let affected_cell_coords = self.get_affected_cell_coords(ship_type, x, y, orientation);
        proof {
            assert forall|cx: int, cy: int|
                lists(affected_cell_coords@, cx, cy) <==> covers(
                    x as int,
                    y as int,
                    ship_type@.length as int,
                    orientation,
                    cx,
                    cy,
                ) by {
                lemma_span_lists_what_is_covered(x, y, ship_type@.length, orientation, cx, cy);
            }
            lemma_span_lists_no_cell_twice(x, y, ship_type@.length, orientation);
        }
        self.assert_cells_free(player, &affected_cell_coords)?;

        self.do_place_ship(player, ship_type.id(), &affected_cell_coords);
        self.placed_ships.insert(player, ship_type.id());
        proof {
            lemma_with_ship_at_span(
                old(self)@.board(player),
                ship_type@.id,
                x,
                y,
                ship_type@.length,
                orientation,
            );
            assert(self@ =~~= old(self)@.place_ship(
                player,
                ship_type@,
                x as int,
                y as int,
                orientation,
            ));
            lemma_place_ship_keeps_valid(
                old(self)@,
                player,
                ship_type@,
                x as int,
                y as int,
                orientation,
            );
        }
        Ok(())
    }

    /// Checks that `ship_type` is one of the ship types of this game.
    fn assert_ship_type_known(&self, ship_type: &ShipType) -> (result: Result<(), PlaceError>)
        ensures
            result == if self@.knows(ship_type@) {
                Ok::<(), PlaceError>(())
            } else {
                Err::<(), PlaceError>(PlaceError::UnknownShipType)
            },
    {
        let mut i: usize = 0;
        while i < self.ship_types.len()
            invariant
                i <= self.ship_types@.len(),
                forall|j: int| 0 <= j < i ==> self@.ship_types[j] != ship_type@,
            decreases self.ship_types@.len() - i,
        {
            if self.ship_types[i] == *ship_type {
                assert(self@.ship_types[i as int] == ship_type@);
                return Ok(());
            }
            i += 1;
        }
        Err(PlaceError::UnknownShipType)
    }

    /// Checks that `player` has not placed the ship of type `ship_type_id`.
    fn assert_ship_not_yet_placed(&self, player: Player, ship_type_id: ShipTypeId) -> (result:
        Result<(), PlaceError>)
        ensures
            result == if self@.placed_ships.contains((player, ship_type_id)) {
                Err::<(), PlaceError>(PlaceError::AlreadyPlaced)
            } else {
                Ok::<(), PlaceError>(())
            },
    {
        if self.placed_ships.contains(player, ship_type_id) {
            Err(PlaceError::AlreadyPlaced)
        } else {
            Ok(())
        }
    }

    /// Checks that a ship of type `ship_type` at (`x`, `y`) ends within the battlefield.
    fn assert_ship_placement_in_bounds(
        &self,
        ship_type: &ShipType,
        x: Dimension,
        y: Dimension,
        orientation: Orientation,
    ) -> (result: Result<(), PlaceError>)
        ensures
            result == if self@.fits(x as int, y as int, ship_type@.length as int, orientation) {
                Ok::<(), PlaceError>(())
            } else {
                Err::<(), PlaceError>(PlaceError::OutOfBounds)
            },
    {
        let length = ship_type.length();
        let fits = match orientation {
            Orientation::Horizontal => x <= self.width && length <= self.width - x && y
                < self.height,
            Orientation::Vertical => y <= self.height && length <= self.height - y && x
                < self.width,
        };

        if fits {
            Ok(())
        } else {
            Err(PlaceError::OutOfBounds)
        }
    }

    /// Returns the coordinates of the cells that a ship of type `ship_type` at (`x`, `y`)
    /// covers, from its first cell to its last, whether they lie on the battlefield or not.
    /// The coordinates of the last cell must be numbers that a `Dimension` can hold.
    fn get_affected_cell_coords(
        &self,
        ship_type: &ShipType,
        x: Dimension,
        y: Dimension,
        orientation: Orientation,
    ) -> (coords: Vec<(Dimension, Dimension)>)
        requires
            match orientation {
                Orientation::Horizontal => x + ship_type@.length <= usize::MAX,
                Orientation::Vertical => y + ship_type@.length <= usize::MAX,
            },
        ensures
            coords@ == span(x, y, ship_type@.length, orientation),
    {
        let length = ship_type.length();
        let mut coords: Vec<(Dimension, Dimension)> = Vec::new();
        let mut n: usize = 0;
        while n < length
            invariant
                n <= length,
                length == ship_type@.length,
                match orientation {
                    Orientation::Horizontal => x + length <= usize::MAX,
                    Orientation::Vertical => y + length <= usize::MAX,
                },
                coords@ == span(x, y, length, orientation).take(n as int),
            decreases length - n,
        {
            let cell = match orientation {
                Orientation::Horizontal => (x + n, y),
                Orientation::Vertical => (x, y + n),
            };
            coords.push(cell);
            assert(coords@ =~= span(x, y, length, orientation).take(n + 1));
            n += 1;
        }
        assert(coords@ =~= span(x, y, length, orientation));
        coords
    }

    /// Checks that no ship is on any of the given cells of the battlefield of `player`.
    fn assert_cells_free(
        &self,
        player: Player,
        cell_coords: &Vec<(Dimension, Dimension)>,
    ) -> (result: Result<(), PlaceError>)
        requires
            self@.shaped(),
            forall|n: int|
                0 <= n < cell_coords@.len() ==> in_bounds(
                    self@.board(player),
                    (#[trigger] cell_coords@[n]).0 as int,
                    cell_coords@[n].1 as int,
                ),
        ensures
            result == if forall|cx: int, cy: int|
                in_bounds(self@.board(player), cx, cy) && lists(cell_coords@, cx, cy) ==> !(
                #[trigger] self@.board(player)[cy][cx]).occupied() {
                Ok::<(), PlaceError>(())
            } else {
                Err::<(), PlaceError>(PlaceError::CellOccupied)
            },
    {
        let bf = if player == Player::P1 {
            &self.battlefields[0]
        } else {
            &self.battlefields[1]
        };

        let mut i: usize = 0;
        while i < cell_coords.len()
            invariant
                i <= cell_coords@.len(),
                bf@ == self@.board(player),
                forall|n: int|
                    0 <= n < cell_coords@.len() ==> in_bounds(
                        bf@,
                        (#[trigger] cell_coords@[n]).0 as int,
                        cell_coords@[n].1 as int,
                    ),
                forall|n: int|
                    0 <= n < i ==> {
                        let (x, y) = #[trigger] cell_coords@[n];
                        !bf@[y as int][x as int].occupied()
                    },
            decreases cell_coords@.len() - i,
        {
            let (x, y) = cell_coords[i];
            let cell = bf.get_cell(x, y).unwrap();
            if cell.ship_type_id().is_some() {
                assert(lists(cell_coords@, x as int, y as int));
                return Err(PlaceError::CellOccupied);
            }
            i += 1;
        }

        Ok(())
    }

    /// Puts a ship of type `ship_type_id` on each of the given cells of the battlefield of
    /// `player`. Nothing else changes.
    fn do_place_ship(
        &mut self,
        player: Player,
        ship_type_id: ShipTypeId,
        affected_cell_coords: &Vec<(Dimension, Dimension)>,
    )
        requires
            old(self)@.shaped(),
            affected_cell_coords@.no_duplicates(),
            forall|n: int|
                0 <= n < affected_cell_coords@.len() ==> {
                    let (x, y) = #[trigger] affected_cell_coords@[n];
                    &&& in_bounds(old(self)@.board(player), x as int, y as int)
                    &&& !old(self)@.board(player)[y as int][x as int].occupied()
                },
        ensures
            final(self)@ == (PreGameView {
                boards: old(self)@.boards.update(
                    player.index(),
                    with_ship_at(old(self)@.board(player), ship_type_id, affected_cell_coords@),
                ),
                ..old(self)@
            }),
    {
        let bf_num: usize = if player == Player::P1 {
            0
        } else {
            1
        };
        let ghost before = old(self)@.board(player);
        assert(self.battlefields@[bf_num as int]@ =~~= with_ship_at(
            before,
            ship_type_id,
            affected_cell_coords@.take(0),
        ));

        let mut i: usize = 0;
        while i < affected_cell_coords.len()
            invariant
                i <= affected_cell_coords@.len(),
                bf_num == player.index(),
                before == old(self)@.board(player),
                old(self)@.shaped(),
                affected_cell_coords@.no_duplicates(),
                forall|n: int|
                    0 <= n < affected_cell_coords@.len() ==> {
                        let (x, y) = #[trigger] affected_cell_coords@[n];
                        &&& in_bounds(before, x as int, y as int)
                        &&& !before[y as int][x as int].occupied()
                    },
                self.width == old(self).width,
                self.height == old(self).height,
                self.ship_types == old(self).ship_types,
                self.placed_ships == old(self).placed_ships,
                self.battlefields@.len() == 2,
                self.battlefields@[1 - bf_num] == old(self).battlefields@[1 - bf_num],
                self.battlefields@[bf_num as int]@ == with_ship_at(
                    before,
                    ship_type_id,
                    affected_cell_coords@.take(i as int),
                ),
            decreases affected_cell_coords@.len() - i,
        {
            let (x, y) = affected_cell_coords[i];
            proof {
                // The cell is none of those that the ship was put on so far.
                let so_far = affected_cell_coords@.take(i as int);
                if lists(so_far, x as int, y as int) {
                    let n = choose|n: int|
                        0 <= n < so_far.len() && (#[trigger] so_far[n]).0 == x && so_far[n].1 == y;
                    assert(affected_cell_coords@[n] == affected_cell_coords@[i as int]);
                }
            }
            let cell = self.battlefields[bf_num].get_mut_cell(x, y).unwrap();
            cell.set_ship_type_id(ship_type_id);
            proof {
                let now = self.battlefields@[bf_num as int]@;
                let goal = with_ship_at(
                    before,
                    ship_type_id,
                    affected_cell_coords@.take(i + 1),
                );
                assert forall|cy: int| 0 <= cy < goal.len() implies now[cy] =~= goal[cy] by {
                    assert forall|cx: int| 0 <= cx < goal[cy].len() implies now[cy][cx]
                        == goal[cy][cx] by {
                        lemma_lists_take_next(affected_cell_coords@, i as int, cx, cy);
                    }
                }
                assert(now =~= goal);
            }
            i += 1;
        }
        proof {
            assert(affected_cell_coords@.take(i as int) =~= affected_cell_coords@);
            assert(self@ =~~= (PreGameView {
                boards: old(self)@.boards.update(
                    player.index(),
                    with_ship_at(old(self)@.board(player), ship_type_id, affected_cell_coords@),
                ),
                ..old(self)@
            }));
        }
    }

    /// Gets the status of the cell (`x`, `y`) owned by `player`.
    /// # Parameters
    /// * `player` determines which battlefield to consider, i.e. the owner of the battlefield.
    /// * `x` the x coordinate
    /// * `y` the y coordinate
    ///
    /// The coordinates must lie within the battlefield.
    pub fn get_cell(&self, player: Player, x: Dimension, y: Dimension) -> (status: CellStatus)
        requires
            self.wf(),
            in_bounds(self@.board(player), x as int, y as int),
        ensures
            status == self@.cell_status(player, x as int, y as int),
    {
        let bf = if player == Player::P1 {
            &self.battlefields[0]
        } else {
            &self.battlefields[1]
        };
        let cell = bf.get_cell(x, y).unwrap();

        if let Some(_) = cell.ship_type_id() {
            CellStatus::Ship
        } else {
            CellStatus::Empty
        }
    }
}

impl Dimensional for PreGame {
    open spec fn well_formed(&self) -> bool {
        true
    }

    open spec fn spec_width(&self) -> nat {
        self@.width as nat
    }

    open spec fn spec_height(&self) -> nat {
        self@.height as nat
    }

    fn width(&self) -> (width: Dimension) {
        self.width
    }

    fn height(&self) -> (height: Dimension) {
        self.height
    }
}

impl ShipTypeContainer for PreGame {
    open spec fn catalog(&self) -> Seq<ShipTypeView> {
        self@.ship_types
    }

    fn ship_types(&self) -> (ship_types: Vec<ShipType>) {
        copy_ship_types(&self.ship_types)
    }
}

} // verus!
