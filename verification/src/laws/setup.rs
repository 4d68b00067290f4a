//! The laws of setting up a game.

use crate::battlefield::grid::afloat;
use crate::battlefield::grid::in_bounds;
use crate::battlefield::grid::ship_cells;
use crate::battlefield::ship_status::lemma_total_at_least_len;
use crate::battlefield::ship_status::lemma_total_zero;
use crate::common::ship_type::lengths;
use crate::common::Orientation;
use crate::common::Player;
use crate::common::ShipTypeView;
use crate::game::GameView;
use crate::placement::covered;
use crate::placement::covers;
use crate::placement::has_room;
use crate::placement::lemma_covered_len;
use crate::placement::lemma_with_ship_cells;
use crate::pregame::PreGameView;
use crate::results::GameStartError;
use crate::results::PlaceError;
use crate::Dimension;
use crate::ShipTypeId;
use vstd::prelude::*;

verus! {

/// One operation on a game that is being set up.
pub enum SetupStep {
    /// A ship type of the given name and length is added.
    AddShipType { name: Seq<char>, length: Dimension },
    /// A player places the ship of a type at some coordinates.
    PlaceShip { player: Player, ship_type: ShipTypeView, x: int, y: int, orientation: Orientation },
}

/// The state after one operation on `state`.
pub open spec fn after_step(state: PreGameView, step: SetupStep) -> PreGameView {
    match step {
        SetupStep::AddShipType { name, length } => state.add_ship_type(name, length),
        SetupStep::PlaceShip { player, ship_type, x, y, orientation } => state.place_ship(
            player,
            ship_type,
            x,
            y,
            orientation,
        ),
    }
}

/// The state after the operations `steps` on `state`, one after the other.
pub open spec fn after_steps(state: PreGameView, steps: Seq<SetupStep>) -> PreGameView
    decreases steps.len(),
{
    if steps.len() == 0 {
        state
    } else {
        after_step(after_steps(state, steps.drop_last()), steps.last())
    }
}

/// The ships of both players of the first `count` types.
pub open spec fn all_ships(count: nat) -> Set<(Player, ShipTypeId)> {
    Set::new(|ship: (Player, ShipTypeId)| ship.1 < count)
}

/// There are twice as many ships as there are ship types.
pub proof fn lemma_all_ships_len(count: nat)
    requires
        count <= usize::MAX,
    ensures
        all_ships(count).finite(),
        all_ships(count).len() == 2 * count,
    decreases count,
{
    broadcast use vstd::set::group_set_axioms;

    if count == 0 {
        assert(all_ships(count) =~= Set::<(Player, ShipTypeId)>::empty());
    } else {
        let id = (count - 1) as ShipTypeId;
        lemma_all_ships_len((count - 1) as nat);
        let grown = all_ships((count - 1) as nat).insert((Player::P1, id)).insert((Player::P2, id));
        assert forall|ship: (Player, ShipTypeId)|
            all_ships(count).contains(ship) <==> grown.contains(ship) by {
            if ship.1 == id {
                match ship.0 {
                    Player::P1 => assert(ship == (Player::P1, id)),
                    Player::P2 => assert(ship == (Player::P2, id)),
                }
            }
        }
        assert(all_ships(count) =~= grown);
    }
}

/// The game can start exactly when there is a ship type and every player has placed a ship
/// of every type. `NoShipsPlaced` says that nothing at all was placed.
pub proof fn lemma_start_when_all_placed(state: PreGameView)
    requires
        state.valid(),
    ensures
        state.start_error() is None <==> state.ship_types.len() > 0 && state.all_ships_placed(),
        state.start_error() == Some(GameStartError::NoShipsPlaced) <==> state.placed_ships
            == Set::<(Player, ShipTypeId)>::empty(),
{
    let count = state.ship_types.len();
    lemma_total_at_least_len(lengths(state.ship_types));
    lemma_all_ships_len(count);
    assert forall|ship: (Player, ShipTypeId)|
        state.placed_ships.contains(ship) implies all_ships(count).contains(ship) by {
        assert(ship == (ship.0, ship.1));
    }
    if state.placed_ships.len() == 0 {
        state.placed_ships.lemma_len0_is_empty();
        if count > 0 {
            assert(!state.placed_ships.contains((Player::P1, 0usize)));
        }
    }
    if state.placed_ships == Set::<(Player, ShipTypeId)>::empty() {
        assert(state.placed_ships.len() == 0) by {
            broadcast use vstd::set::group_set_axioms;

        }
    }
    if state.all_ships_placed() {
        assert forall|ship: (Player, ShipTypeId)|
            all_ships(count).contains(ship) implies state.placed_ships.contains(ship) by {
            assert(ship == (ship.0, ship.1));
        }
        assert(state.placed_ships =~= all_ships(count));
    }
    if state.placed_ships.len() == 2 * count {
        vstd::set_lib::lemma_subset_equality(state.placed_ships, all_ships(count));
        assert forall|player: Player, id: ShipTypeId|
            id < state.ship_types.len() implies state.placed_ships.contains((player, id)) by {
            assert(all_ships(count).contains((player, id)));
        }
    }
}

/// A ship type that is added adds its length to the total length. One that is refused adds
/// nothing.
pub proof fn lemma_add_ship_type_total_length(
    state: PreGameView,
    name: Seq<char>,
    length: Dimension,
)
    ensures
        state.add_ship_type_result(name, length) is Ok ==> state.add_ship_type(
            name,
            length,
        ).total_length() == state.total_length() + length,
        state.add_ship_type_result(name, length) is Err ==> state.add_ship_type(
            name,
            length,
        ).total_length() == state.total_length(),
        PreGameView::initial(state.width, state.height).total_length() == 0,
{
    if state.add_ship_type_result(name, length) is Ok {
        let after = state.add_ship_type(name, length);
        assert(lengths(after.ship_types).drop_last() =~= lengths(state.ship_types));
    }
}

/// Adding a ship type leads from a state that setting up a game can lead to to another such
/// state, as long as the machine can hold the total length of the ship types.
pub proof fn lemma_add_ship_type_keeps_valid(state: PreGameView, name: Seq<char>, length: Dimension)
    requires
        state.valid(),
        state.add_ship_type_result(name, length) is Ok ==> state.has_room_for(length),
    ensures
        state.add_ship_type(name, length).valid(),
{
    if state.add_ship_type_result(name, length) is Ok {
        let after = state.add_ship_type(name, length);
        lemma_total_at_least_len(lengths(state.ship_types));
        lemma_add_ship_type_total_length(state, name, length);
        let count = state.ship_types.len() as ShipTypeId;
        assert forall|player: Player, id: ShipTypeId|
            id < after.ship_types.len() implies #[trigger] after.ship_in_place(player, id) by {
            if id < count {
                assert(state.ship_in_place(player, id));
            } else {
                // No ship of the new type is on a battlefield: none was ever placed.
                assert forall|c: (int, int)| !ship_cells(state.board(player), id).contains(c) by {
                    if in_bounds(state.board(player), c.0, c.1) {
                        let cell = state.board(player)[c.1][c.0];
                        assert(cell.ship_type_id matches Some(other) ==> other < count);
                    }
                }
                assert(ship_cells(state.board(player), id) =~= Set::<(int, int)>::empty());
            }
        }
    }
}

/// Placing a ship leads from a state that setting up a game can lead to to another such
/// state.
pub proof fn lemma_place_ship_keeps_valid(
    state: PreGameView,
    player: Player,
    ship_type: ShipTypeView,
    x: int,
    y: int,
    orientation: Orientation,
)
    requires
        state.valid(),
    ensures
        state.place_ship(player, ship_type, x, y, orientation).valid(),
{
    if state.place_ship_result(player, ship_type, x, y, orientation) is Ok {
        let after = state.place_ship(player, ship_type, x, y, orientation);
        let length = ship_type.length as int;
        let board = state.board(player);
        let i = choose|i: int| 0 <= i < state.ship_types.len() && state.ship_types[i] == ship_type;
        assert(ship_type.id == i);
        assert(has_room(board, x, y, length, orientation)) by {
            assert forall|cx: int, cy: int| #[trigger]
                covers(x, y, length, orientation, cx, cy) implies in_bounds(board, cx, cy)
                && !board[cy][cx].occupied() by {
                assert(in_bounds(board, cx, cy));
            }
        }
        assert forall|owner: Player, id: ShipTypeId|
            id < after.ship_types.len() implies #[trigger] after.ship_in_place(owner, id) by {
            assert(state.ship_in_place(owner, id));
            if owner == player {
                lemma_with_ship_cells(board, ship_type.id, x, y, length, orientation, id);
                if id == ship_type.id {
                    ship_cells(board, id).lemma_len0_is_empty();
                    lemma_covered_len(x, y, length, orientation);
                    assert(ship_cells(after.board(owner), id) =~= covered(
                        x,
                        y,
                        length,
                        orientation,
                    ));
                }
            } else {
                assert(after.board(owner) == state.board(owner));
            }
        }
    }
}

/// A game that is set up and started begins in a state that a game can be in, in which the
/// health of every ship is the number of its cells, none of which was shot at.
pub proof fn lemma_game_starts_in_step(setup: PreGameView)
    requires
        setup.valid(),
        setup.start_error() is None,
    ensures
        GameView::initial(setup.ship_types, setup.boards).valid(),
        GameView::initial(setup.ship_types, setup.boards).in_step(),
        GameView::initial(setup.ship_types, setup.boards).winner() is None,
{
    let game = GameView::initial(setup.ship_types, setup.boards);
    lemma_start_when_all_placed(setup);
    lemma_total_at_least_len(lengths(setup.ship_types));
    assert forall|player: Player, id: ShipTypeId|
        id < game.ship_types.len() implies #[trigger] game.ship_in_step(player, id) by {
        assert(setup.ship_in_place(player, id));
        assert(afloat(game.board(player), id) =~= ship_cells(setup.board(player), id));
    }
    lemma_total_zero(game.status.p1);
    assert(game.status.p1[0] >= 1);
}

/// Placement is all or nothing: a placement that is refused leaves the whole state as it
/// was, and with it every cell of both battlefields.
pub proof fn lemma_refused_placement_changes_nothing(
    state: PreGameView,
    player: Player,
    ship_type: ShipTypeView,
    x: int,
    y: int,
    orientation: Orientation,
)
    requires
        state.place_ship_result(player, ship_type, x, y, orientation) is Err,
    ensures
        state.place_ship(player, ship_type, x, y, orientation) == state,
{
}

/// A placement that is accepted changes the cells that the ship covers on its owner's
/// battlefield, and those only: they were empty and now hold the ship. The other battlefield
/// stays as it was.
pub proof fn lemma_accepted_placement_changes_the_span(
    state: PreGameView,
    player: Player,
    ship_type: ShipTypeView,
    x: int,
    y: int,
    orientation: Orientation,
    cx: int,
    cy: int,
)
    requires
        state.valid(),
        state.place_ship_result(player, ship_type, x, y, orientation) is Ok,
        in_bounds(state.board(player), cx, cy),
    ensures
        ({
            let after = state.place_ship(player, ship_type, x, y, orientation);
            let covered = covers(x, y, ship_type.length as int, orientation, cx, cy);
            &&& after.board(player.opponent()) == state.board(player.opponent())
            &&& covered ==> !state.board(player)[cy][cx].occupied()
            &&& covered ==> after.board(player)[cy][cx] == state.board(player)[cy][cx].occupy(
                ship_type.id,
            )
            &&& !covered ==> after.board(player)[cy][cx] == state.board(player)[cy][cx]
        }),
{
}

/// A ship lies where it was placed: no operation on the game takes a ship off a cell or
/// puts a ship of another type on it.
pub proof fn lemma_ships_stay_where_they_are(
    state: PreGameView,
    step: SetupStep,
    player: Player,
    cx: int,
    cy: int,
)
    requires
        state.valid(),
        in_bounds(state.board(player), cx, cy),
        state.board(player)[cy][cx].occupied(),
    ensures
        in_bounds(after_step(state, step).board(player), cx, cy),
        after_step(state, step).board(player)[cy][cx] == state.board(player)[cy][cx],
{
}

/// A ship that was placed stays placed, and a ship type that was added stays known, whatever
/// is done to the game afterwards.
pub proof fn lemma_setup_never_forgets(
    state: PreGameView,
    steps: Seq<SetupStep>,
    player: Player,
    ship_type: ShipTypeView,
)
    ensures
        state.knows(ship_type) ==> after_steps(state, steps).knows(ship_type),
        state.placed_ships.contains((player, ship_type.id)) ==> after_steps(
            state,
            steps,
        ).placed_ships.contains((player, ship_type.id)),
    decreases steps.len(),
{
    if steps.len() > 0 {
        lemma_setup_never_forgets(state, steps.drop_last(), player, ship_type);
        let before = after_steps(state, steps.drop_last());
        if before.knows(ship_type) {
            let i = choose|i: int|
                0 <= i < before.ship_types.len() && before.ship_types[i] == ship_type;
            match steps.last() {
                SetupStep::AddShipType { name, length } => {
                    if before.add_ship_type_result(name, length) is Ok {
                        assert(after_steps(state, steps).ship_types[i] == ship_type);
                    }
                },
                SetupStep::PlaceShip { .. } => {},
            }
        }
    }
}

/// `AlreadyPlaced` is permanent: once a player's ship of some type is refused as already
/// placed, placing it is refused in the same way at every later time, at whatever coordinates
/// and in whatever orientation it is tried.
pub proof fn lemma_already_placed_is_permanent(
    state: PreGameView,
    player: Player,
    ship_type: ShipTypeView,
    x: int,
    y: int,
    orientation: Orientation,
    steps: Seq<SetupStep>,
    later_x: int,
    later_y: int,
    later_orientation: Orientation,
)
    requires
        state.place_ship_result(player, ship_type, x, y, orientation) == Err::<(), PlaceError>(
            PlaceError::AlreadyPlaced,
        ),
    ensures
        after_steps(state, steps).place_ship_result(
            player,
            ship_type,
            later_x,
            later_y,
            later_orientation,
        ) == Err::<(), PlaceError>(PlaceError::AlreadyPlaced),
{
    lemma_setup_never_forgets(state, steps, player, ship_type);
}

/// A ship that was placed with success cannot be placed a second time.
pub proof fn lemma_placed_once(
    state: PreGameView,
    player: Player,
    ship_type: ShipTypeView,
    x: int,
    y: int,
    orientation: Orientation,
    later_x: int,
    later_y: int,
    later_orientation: Orientation,
)
    requires
        state.place_ship_result(player, ship_type, x, y, orientation) is Ok,
    ensures
        state.place_ship(player, ship_type, x, y, orientation).place_ship_result(
            player,
            ship_type,
            later_x,
            later_y,
            later_orientation,
        ) == Err::<(), PlaceError>(PlaceError::AlreadyPlaced),
{
}

} // verus!
