//! The laws of playing a game.

use crate::battlefield::grid::afloat;
use crate::battlefield::grid::in_bounds;
use crate::battlefield::ship_status::lemma_total_update;
use crate::battlefield::ship_status::lemma_total_zero;
use crate::common::CellStatus;
use crate::common::Player;
use crate::game::GameView;
use crate::results::ShootError;
use crate::results::ShootOk;
use crate::ShipTypeId;
use vstd::prelude::*;

verus! {

/// One shot at column `x` of line `y` of the battlefield of `target`.
pub struct Shot {
    pub target: Player,
    pub x: int,
    pub y: int,
}

/// The state of the game after the shots `shots`, one after the other.
pub open spec fn after_shots(state: GameView, shots: Seq<Shot>) -> GameView
    decreases shots.len(),
{
    if shots.len() == 0 {
        state
    } else {
        let shot = shots.last();
        after_shots(state, shots.drop_last()).shoot(shot.target, shot.x, shot.y)
    }
}

/// What a player sees of the opponent's battlefield shows no ship that was not hit: a cell
/// that was not shot at looks empty, whether a ship is on it or not. What a player sees of
/// the own battlefield shows no miss. A hit is a hit to both: the owner sees it on the own
/// battlefield exactly when the opponent sees it there.
pub proof fn lemma_views_hide_what_they_should(state: GameView, player: Player, x: int, y: int)
    ensures
        state.opponent_cell_status(player, x, y) != CellStatus::Ship,
        !state.board(player.opponent())[y][x].shot ==> state.opponent_cell_status(player, x, y)
            == CellStatus::Empty,
        state.cell_status(player, x, y) != CellStatus::Miss,
        state.cell_status(player, x, y) == CellStatus::Hit <==> state.opponent_cell_status(
            player.opponent(),
            x,
            y,
        ) == CellStatus::Hit,
{
}

/// What a player sees of a cell of the opponent's battlefield depends on the shots at it
/// alone: two games in which that cell was shot at alike, and holds a ship alike if it was
/// shot at, look the same there, wherever the ships lie that were not hit.
pub proof fn lemma_opponent_view_hides_ships_afloat(
    one: GameView,
    other: GameView,
    player: Player,
    x: int,
    y: int,
)
    requires
        one.board(player.opponent())[y][x].shot == other.board(player.opponent())[y][x].shot,
        one.board(player.opponent())[y][x].shot ==> one.board(
            player.opponent(),
        )[y][x].occupied() == other.board(player.opponent())[y][x].occupied(),
    ensures
        one.opponent_cell_status(player, x, y) == other.opponent_cell_status(player, x, y),
{
}

/// A shot that is taken shows at once in what the shooter sees of the battlefield shot at: a
/// hit where a ship was, a miss where none was. What the player shot at sees of the
/// shooter's battlefield does not change.
pub proof fn lemma_shot_shows_to_the_shooter(state: GameView, target: Player, x: int, y: int)
    requires
        state.valid(),
        state.shoot_result(target, x, y) is Ok,
    ensures
        state.opponent_cell_status(target.opponent(), x, y) == CellStatus::Empty,
        state.shoot(target, x, y).opponent_cell_status(target.opponent(), x, y) == if state.board(
            target,
        )[y][x].occupied() {
            CellStatus::Hit
        } else {
            CellStatus::Miss
        },
        state.board(target)[y][x].occupied() <==> state.shoot_result(target, x, y) != Ok::<
            ShootOk,
            ShootError,
        >(ShootOk::Miss),
        forall|cx: int, cy: int|
            in_bounds(state.board(target.opponent()), cx, cy) ==> #[trigger] state.shoot(
                target,
                x,
                y,
            ).opponent_cell_status(target, cx, cy) == state.opponent_cell_status(target, cx, cy),
{
}

/// A shot leads from a state that a game can be in to a state that a game can be in.
pub proof fn lemma_shoot_keeps_valid(state: GameView, target: Player, x: int, y: int)
    requires
        state.valid(),
    ensures
        state.shoot(target, x, y).valid(),
{
    if state.shoot_result(target, x, y) is Ok {
        let cell = state.board(target)[y][x];
        if let Some(id) = cell.ship_type_id {
            lemma_total_update(
                state.status.of(target),
                id as int,
                state.status.health_after_hit(target, id as int),
            );
        }
    }
}

/// So do any number of shots.
pub proof fn lemma_shots_keep_valid(state: GameView, shots: Seq<Shot>)
    requires
        state.valid(),
    ensures
        after_shots(state, shots).valid(),
    decreases shots.len(),
{
    if shots.len() > 0 {
        lemma_shots_keep_valid(state, shots.drop_last());
        let shot = shots.last();
        lemma_shoot_keeps_valid(after_shots(state, shots.drop_last()), shot.target, shot.x, shot.y);
    }
}

/// A shot that is refused leaves the whole state as it was.
pub proof fn lemma_refused_shot_changes_nothing(state: GameView, target: Player, x: int, y: int)
    requires
        state.shoot_result(target, x, y) is Err,
    ensures
        state.shoot(target, x, y) == state,
{
}

/// A shot that is taken marks the cell it is aimed at, which was not marked before, and
/// changes no other cell of either battlefield. No shot moves a ship.
pub proof fn lemma_shot_marks_its_cell_only(
    state: GameView,
    target: Player,
    x: int,
    y: int,
    owner: Player,
    cx: int,
    cy: int,
)
    requires
        state.valid(),
        state.shoot_result(target, x, y) is Ok,
        in_bounds(state.board(owner), cx, cy),
    ensures
        !state.board(target)[y][x].shot,
        in_bounds(state.shoot(target, x, y).board(owner), cx, cy),
        state.shoot(target, x, y).board(owner)[cy][cx] == if owner == target && cx == x && cy
            == y {
            state.board(owner)[cy][cx].shoot()
        } else {
            state.board(owner)[cy][cx]
        },
{
}

/// A cell that was shot at stays marked, whatever shots follow.
pub proof fn lemma_shot_cells_stay_shot(
    state: GameView,
    owner: Player,
    x: int,
    y: int,
    shots: Seq<Shot>,
)
    requires
        state.valid(),
        in_bounds(state.board(owner), x, y),
        state.board(owner)[y][x].shot,
    ensures
        in_bounds(after_shots(state, shots).board(owner), x, y),
        after_shots(state, shots).board(owner)[y][x].shot,
    decreases shots.len(),
{
    if shots.len() > 0 {
        lemma_shot_cells_stay_shot(state, owner, x, y, shots.drop_last());
        lemma_shots_keep_valid(state, shots.drop_last());
    }
}

/// Shooting at a cell that was shot at before is refused as `AlreadyShot`, whatever the
/// earlier shot came to, whenever a shot at that battlefield is due at all: it is the
/// opponent's turn and the game has no winner. The refusal changes nothing.
pub proof fn lemma_shooting_twice_is_refused(state: GameView, target: Player, x: int, y: int)
    requires
        state.valid(),
        in_bounds(state.board(target), x, y),
        state.board(target)[y][x].shot,
        target != state.current_player,
        state.winner() is None,
    ensures
        state.shoot_result(target, x, y) == Err::<ShootOk, ShootError>(ShootError::AlreadyShot),
        state.shoot(target, x, y) == state,
{
}

/// Once a shot at a cell was taken, whatever it came to, no shot at that cell is taken ever
/// again: at every later time it is refused, and as `AlreadyShot` exactly when a shot at that
/// battlefield is due, that is when it is the opponent's turn and the game has no winner.
pub proof fn lemma_a_cell_is_shot_at_once(
    state: GameView,
    target: Player,
    x: int,
    y: int,
    shots: Seq<Shot>,
)
    requires
        state.valid(),
        state.shoot_result(target, x, y) is Ok,
    ensures
        ({
            let later = after_shots(state.shoot(target, x, y), shots);
            &&& later.shoot_result(target, x, y) is Err
            &&& later.shoot_result(target, x, y) == Err::<ShootOk, ShootError>(
                ShootError::AlreadyShot,
            ) <==> target != later.current_player && later.winner() is None
        }),
{
    let first = state.shoot(target, x, y);
    lemma_shoot_keeps_valid(state, target, x, y);
    lemma_shot_marks_its_cell_only(state, target, x, y, target, x, y);
    lemma_shot_cells_stay_shot(first, target, x, y, shots);
}

/// A second shot at a cell, right after the first was taken, is always refused: as
/// `AlreadyShot` after a hit, because the turn has passed after a miss, and because the game
/// is over after the winning shot.
pub proof fn lemma_second_shot_at_a_cell(state: GameView, target: Player, x: int, y: int)
    requires
        state.valid(),
        state.shoot_result(target, x, y) is Ok,
    ensures
        ({
            let first = state.shoot_result(target, x, y)->Ok_0;
            let second = state.shoot(target, x, y).shoot_result(target, x, y);
            second == Err::<ShootOk, ShootError>(
                match first {
                    ShootOk::Miss => ShootError::NotThisPlayersTurn,
                    ShootOk::WinningShot => ShootError::GameOver,
                    ShootOk::Hit => ShootError::AlreadyShot,
                    ShootOk::Destroyed => ShootError::AlreadyShot,
                },
            )
        }),
{
    lemma_shoot_keeps_valid(state, target, x, y);
    let cell = state.board(target)[y][x];
    if let Some(id) = cell.ship_type_id {
        lemma_total_update(
            state.status.of(target),
            id as int,
            state.status.health_after_hit(target, id as int),
        );
    }
}

/// The turn passes to the other player if and only if the shot is a miss. After every other
/// outcome, a refusal included, the same player moves again.
pub proof fn lemma_turn_changes_on_miss_only(state: GameView, target: Player, x: int, y: int)
    ensures
        state.shoot(target, x, y).current_player != state.current_player <==> state.shoot_result(
            target,
            x,
            y,
        ) == Ok::<ShootOk, ShootError>(ShootOk::Miss),
        state.shoot(target, x, y).current_player == if state.shoot_result(target, x, y) == Ok::<
            ShootOk,
            ShootError,
        >(ShootOk::Miss) {
            state.current_player.opponent()
        } else {
            state.current_player
        },
{
}

/// A shot is the winning shot exactly when it brings the summed health of the player shot at
/// down to zero. Then the shooter is the winner.
pub proof fn lemma_winning_shot(state: GameView, target: Player, x: int, y: int)
    requires
        state.valid(),
    ensures
        state.shoot_result(target, x, y) == Ok::<ShootOk, ShootError>(ShootOk::WinningShot) <==> {
            &&& state.status.sum_health(target) > 0
            &&& state.shoot(target, x, y).status.sum_health(target) == 0
        },
        state.shoot_result(target, x, y) == Ok::<ShootOk, ShootError>(ShootOk::WinningShot)
            ==> state.shoot(target, x, y).winner() == Some(target.opponent()),
        state.shoot_result(target, x, y) is Ok && state.shoot_result(target, x, y) != Ok::<
            ShootOk,
            ShootError,
        >(ShootOk::WinningShot) ==> state.shoot(target, x, y).winner() is None,
{
    if state.shoot_result(target, x, y) is Ok {
        let cell = state.board(target)[y][x];
        if let Some(id) = cell.ship_type_id {
            lemma_total_update(
                state.status.of(target),
                id as int,
                state.status.health_after_hit(target, id as int),
            );
        }
    }
}

/// Once the game has a winner, every shot is refused: as `GameOver`, unless the player shot
/// at is the one whose turn it would be. Nothing changes any more.
pub proof fn lemma_no_shot_after_the_end(state: GameView, target: Player, x: int, y: int)
    requires
        state.winner() is Some,
    ensures
        state.shoot_result(target, x, y) == Err::<ShootOk, ShootError>(
            if target == state.current_player {
                ShootError::NotThisPlayersTurn
            } else {
                ShootError::GameOver
            },
        ),
        state.shoot(target, x, y) == state,
{
}

/// The game stays over, with the same winner, whatever shots are tried after its end.
pub proof fn lemma_game_over_is_final(state: GameView, shots: Seq<Shot>)
    requires
        state.winner() is Some,
    ensures
        after_shots(state, shots) == state,
    decreases shots.len(),
{
    if shots.len() > 0 {
        lemma_game_over_is_final(state, shots.drop_last());
        let shot = shots.last();
        lemma_no_shot_after_the_end(state, shot.target, shot.x, shot.y);
    }
}

/// In a game whose health counters are in step with its battlefields, a shot that hits a
/// ship hits one of the cells that were left of it, so that the ship had health to lose: a
/// hit takes exactly one off its health.
pub proof fn lemma_hit_takes_one_health(state: GameView, target: Player, x: int, y: int)
    requires
        state.valid(),
        state.in_step(),
        state.shoot_result(target, x, y) is Ok,
        state.board(target)[y][x].ship_type_id is Some,
    ensures
        ({
            let id = state.board(target)[y][x].ship_type_id->Some_0;
            &&& state.status.of(target)[id as int] >= 1
            &&& state.shoot(target, x, y).status.of(target)[id as int] == state.status.of(
                target,
            )[id as int] - 1
            &&& state.shoot(target, x, y).status.sum_health(target) == state.status.sum_health(
                target,
            ) - 1
        }),
{
    let id = state.board(target)[y][x].ship_type_id->Some_0;
    assert(state.ship_in_step(target, id));
    assert(afloat(state.board(target), id).contains((x, y)));
    vstd::set::axiom_set_remove_len(afloat(state.board(target), id), (x, y));
    lemma_total_update(
        state.status.of(target),
        id as int,
        state.status.health_after_hit(target, id as int),
    );
}

/// A shot keeps the health counters in step with the battlefields.
pub proof fn lemma_shoot_keeps_in_step(state: GameView, target: Player, x: int, y: int)
    requires
        state.valid(),
        state.in_step(),
    ensures
        state.shoot(target, x, y).in_step(),
{
    let after = state.shoot(target, x, y);
    if state.shoot_result(target, x, y) is Ok {
        let cell = state.board(target)[y][x];
        assert forall|player: Player, id: ShipTypeId|
            id < after.ship_types.len() implies #[trigger] after.ship_in_step(player, id) by {
            assert(state.ship_in_step(player, id));
            if player == target && cell.ship_type_id == Some(id) {
                lemma_hit_takes_one_health(state, target, x, y);
                vstd::set::axiom_set_remove_len(afloat(state.board(target), id), (x, y));
                vstd::set::axiom_set_remove_finite(afloat(state.board(target), id), (x, y));
                assert(afloat(after.board(target), id) =~= afloat(state.board(target), id).remove(
                    (x, y),
                ));
            } else {
                assert(afloat(after.board(player), id) =~= afloat(state.board(player), id));
            }
        }
    }
}

/// So do any number of shots.
pub proof fn lemma_shots_keep_in_step(state: GameView, shots: Seq<Shot>)
    requires
        state.valid(),
        state.in_step(),
    ensures
        after_shots(state, shots).in_step(),
    decreases shots.len(),
{
    if shots.len() > 0 {
        lemma_shots_keep_in_step(state, shots.drop_last());
        lemma_shots_keep_valid(state, shots.drop_last());
        let shot = shots.last();
        lemma_shoot_keeps_in_step(
            after_shots(state, shots.drop_last()),
            shot.target,
            shot.x,
            shot.y,
        );
    }
}

/// In a game whose health counters are in step with its battlefields, a ship is reported as
/// destroyed, or the shot as the winning one, exactly when the shot hits the last cell that was
/// left of the ship. A hit that is reported as a mere hit leaves a cell of the ship.
pub proof fn lemma_destroyed_means_sunk(state: GameView, target: Player, x: int, y: int)
    requires
        state.valid(),
        state.in_step(),
        state.shoot_result(target, x, y) is Ok,
        state.board(target)[y][x].ship_type_id is Some,
    ensures
        ({
            let id = state.board(target)[y][x].ship_type_id->Some_0;
            let left = afloat(state.shoot(target, x, y).board(target), id);
            let result = state.shoot_result(target, x, y)->Ok_0;
            &&& result != ShootOk::Miss
            &&& result == ShootOk::Hit <==> left != Set::<(int, int)>::empty()
            &&& result == ShootOk::Destroyed || result == ShootOk::WinningShot <==> left
                == Set::<(int, int)>::empty()
        }),
{
    let id = state.board(target)[y][x].ship_type_id->Some_0;
    let after = state.shoot(target, x, y);
    let left = afloat(after.board(target), id);
    lemma_shoot_keeps_valid(state, target, x, y);
    lemma_shoot_keeps_in_step(state, target, x, y);
    lemma_total_update(
        state.status.of(target),
        id as int,
        state.status.health_after_hit(target, id as int),
    );
    lemma_total_zero(after.status.of(target));
    assert(after.ship_in_step(target, id));
    if after.status.of(target)[id as int] == 0 {
        left.lemma_len0_is_empty();
    } else {
        assert(left.len() > 0);
        assert(left != Set::<(int, int)>::empty()) by {
            broadcast use vstd::set::group_set_axioms;

        }
    }
}

/// In a game whose health counters are in step with its battlefields, a player has no
/// health left, so that the opponent has won, exactly when every cell of that player's
/// battlefield with a ship on it was shot at.
pub proof fn lemma_no_health_means_fleet_sunk(state: GameView, player: Player)
    requires
        state.valid(),
        state.in_step(),
    ensures
        state.status.sum_health(player) == 0 <==> forall|x: int, y: int|
            in_bounds(state.board(player), x, y) && (#[trigger] state.board(
                player,
            )[y][x]).occupied() ==> state.board(player)[y][x].shot,
{
    let board = state.board(player);
    let health = state.status.of(player);
    lemma_total_zero(health);
    if state.status.sum_health(player) == 0 {
        assert forall|x: int, y: int|
            in_bounds(board, x, y) && (#[trigger] board[y][x]).occupied() implies board[y][x].shot
        by {
            let id = board[y][x].ship_type_id->Some_0;
            assert(state.ship_in_step(player, id));
            afloat(board, id).lemma_len0_is_empty();
            assert(!afloat(board, id).contains((x, y)));
        }
    }
    if forall|x: int, y: int|
        in_bounds(board, x, y) && (#[trigger] board[y][x]).occupied() ==> board[y][x].shot {
        assert forall|i: int| 0 <= i < health.len() implies health[i] == 0 by {
            let id = i as ShipTypeId;
            assert(state.ship_in_step(player, id));
            assert forall|c: (int, int)| !afloat(board, id).contains(c) by {
                if in_bounds(board, c.0, c.1) {
                    assert(board[c.1][c.0].occupied() ==> board[c.1][c.0].shot);
                }
            }
            assert(afloat(board, id) =~= Set::<(int, int)>::empty());
        }
    }
}

} // verus!
