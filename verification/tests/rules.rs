use lib_battleship::battlefield::Battlefield;
use lib_battleship::common::CellStatus;
use lib_battleship::common::CellStatus::{Empty, Hit, Miss, Ship};
use lib_battleship::common::Dimensional;
use lib_battleship::common::Orientation;
use lib_battleship::common::Orientation::{Horizontal, Vertical};
use lib_battleship::common::Player;
use lib_battleship::common::Player::{P1, P2};
use lib_battleship::common::ShipType;
use lib_battleship::common::ShipTypeContainer;
use lib_battleship::results::GameError;
use lib_battleship::results::GameStartError;
use lib_battleship::results::PlaceError;
use lib_battleship::results::ShipTypeError;
use lib_battleship::results::ShootError;
use lib_battleship::results::ShootOk;
use lib_battleship::Game;
use lib_battleship::PreGame;

fn setup_cells(pregame: &PreGame, player: Player) -> Vec<CellStatus> {
    let mut cells = Vec::new();
    for y in 0..pregame.height() {
        for x in 0..pregame.width() {
            cells.push(pregame.get_cell(player, x, y));
        }
    }
    cells
}

fn owner_cells(game: &Game, player: Player) -> Vec<CellStatus> {
    let mut cells = Vec::new();
    for y in 0..game.height() {
        for x in 0..game.width() {
            cells.push(game.get_cell(player, x, y));
        }
    }
    cells
}

/// What `player` sees of the battlefield of the other player.
fn opponent_cells(game: &Game, player: Player) -> Vec<CellStatus> {
    let mut cells = Vec::new();
    for y in 0..game.height() {
        for x in 0..game.width() {
            cells.push(game.get_opponent_cell(player, x, y));
        }
    }
    cells
}

fn two_ship_game() -> Game {
    let mut pregame = PreGame::new(4, 3).unwrap();
    let corvette = pregame.add_ship_type("Corvette", 2).unwrap();
    let submarine = pregame.add_ship_type("Submarine", 1).unwrap();
    pregame.place_ship(P1, &corvette, 0, 0, Horizontal).unwrap();
    pregame.place_ship(P1, &submarine, 3, 2, Vertical).unwrap();
    pregame.place_ship(P2, &corvette, 1, 1, Vertical).unwrap();
    pregame.place_ship(P2, &submarine, 0, 0, Horizontal).unwrap();
    pregame.start().unwrap()
}

#[test]
fn dimensions_are_legal_from_one_by_two() {
    for width in 0..4 {
        for height in 0..4 {
            let legal = width >= 1 && height >= 2;
            assert_eq!(legal, Battlefield::new(width, height).is_ok());
            assert_eq!(legal, PreGame::new(width, height).is_ok());
            if !legal {
                assert_eq!(Err(GameError::IllegalDimensions), Battlefield::new(width, height));
                assert_eq!(Err(GameError::IllegalDimensions), PreGame::new(width, height));
            }
        }
    }
}

#[test]
fn ship_types_get_their_ids_in_the_order_they_are_added() {
    let mut pregame = PreGame::new(3, 5).unwrap();

    let first = pregame.add_ship_type("Submarine", 1).unwrap();
    assert_eq!(Err(ShipTypeError::IllegalShipLength), pregame.add_ship_type("Nothing", 0));
    assert_eq!(Err(ShipTypeError::ShipTooLongForBattlefield), pregame.add_ship_type("Tanker", 6));
    let second = pregame.add_ship_type("Battleship", 5).unwrap();
    let third = pregame.add_ship_type("Submarine", 1).unwrap();

    assert_eq!(ShipType::new(0, "Submarine", 1), first);
    assert_eq!(ShipType::new(1, "Battleship", 5), second);
    assert_eq!(ShipType::new(2, "Submarine", 1), third);
    assert_eq!(vec![first, second, third], pregame.ship_types());
}

#[test]
fn a_ship_may_be_as_long_as_the_longer_side() {
    let mut wide = PreGame::new(5, 2).unwrap();
    assert!(wide.add_ship_type("Long", 5).is_ok());
    assert_eq!(Err(ShipTypeError::ShipTooLongForBattlefield), wide.add_ship_type("Longer", 6));

    let mut high = PreGame::new(2, 7).unwrap();
    let long = high.add_ship_type("Long", 7).unwrap();
    assert_eq!(Err(ShipTypeError::ShipTooLongForBattlefield), high.add_ship_type("Longer", 8));
    assert_eq!(
        Err(ShipTypeError::ShipTooLongForBattlefield),
        high.add_ship_type("Longest", usize::MAX)
    );

    assert_eq!(Err(PlaceError::OutOfBounds), high.place_ship(P1, &long, 0, 0, Horizontal));
    assert_eq!(Ok(()), high.place_ship(P1, &long, 1, 0, Vertical));
}

#[test]
fn the_checks_of_a_placement_come_in_order() {
    let mut pregame = PreGame::new(3, 3).unwrap();
    let corvette = pregame.add_ship_type("Corvette", 2).unwrap();
    let frigate = pregame.add_ship_type("Frigate", 3).unwrap();
    let stranger = ShipType::new(1, "Frigate", 2);
    pregame.place_ship(P1, &corvette, 0, 0, Horizontal).unwrap();

    // unknown comes before everything else
    assert_eq!(Err(PlaceError::UnknownShipType), pregame.place_ship(P1, &stranger, 9, 9, Vertical));
    assert_eq!(
        Err(PlaceError::UnknownShipType),
        pregame.place_ship(P1, &ShipType::new(0, "Corvette", 3), 0, 0, Horizontal)
    );
    assert_eq!(
        Err(PlaceError::UnknownShipType),
        pregame.place_ship(P1, &ShipType::new(2, "Corvette", 2), 0, 1, Horizontal)
    );
    // already placed comes before out of bounds and occupied
    assert_eq!(Err(PlaceError::AlreadyPlaced), pregame.place_ship(P1, &corvette, 9, 9, Vertical));
    assert_eq!(Err(PlaceError::AlreadyPlaced), pregame.place_ship(P1, &corvette, 0, 0, Vertical));
    // out of bounds comes before occupied
    assert_eq!(Err(PlaceError::OutOfBounds), pregame.place_ship(P1, &frigate, 1, 0, Horizontal));
    assert_eq!(Err(PlaceError::CellOccupied), pregame.place_ship(P1, &frigate, 0, 0, Horizontal));
    assert_eq!(Err(PlaceError::CellOccupied), pregame.place_ship(P1, &frigate, 1, 0, Vertical));
    assert_eq!(Ok(()), pregame.place_ship(P1, &frigate, 2, 0, Vertical));
}

#[test]
fn coordinates_at_the_end_of_the_number_range_are_out_of_bounds() {
    let mut pregame = PreGame::new(3, 3).unwrap();
    let corvette = pregame.add_ship_type("Corvette", 2).unwrap();

    for orientation in [Horizontal, Vertical] {
        assert_eq!(
            Err(PlaceError::OutOfBounds),
            pregame.place_ship(P1, &corvette, usize::MAX, 0, orientation)
        );
        assert_eq!(
            Err(PlaceError::OutOfBounds),
            pregame.place_ship(P1, &corvette, 0, usize::MAX, orientation)
        );
        assert_eq!(
            Err(PlaceError::OutOfBounds),
            pregame.place_ship(P1, &corvette, usize::MAX, usize::MAX, orientation)
        );
        assert_eq!(
            Err(PlaceError::OutOfBounds),
            pregame.place_ship(P1, &corvette, 3, 0, orientation)
        );
        assert_eq!(
            Err(PlaceError::OutOfBounds),
            pregame.place_ship(P1, &corvette, 0, 3, orientation)
        );
    }

    let mut game = two_ship_game();
    assert_eq!(Err(ShootError::OutOfBounds), game.shoot(P2, usize::MAX, 0));
    assert_eq!(Err(ShootError::OutOfBounds), game.shoot(P2, 0, usize::MAX));
}

#[test]
fn a_refused_placement_leaves_every_cell_as_it_was() {
    let mut pregame = PreGame::new(4, 4).unwrap();
    let corvette = pregame.add_ship_type("Corvette", 2).unwrap();
    let frigate = pregame.add_ship_type("Frigate", 3).unwrap();
    pregame.place_ship(P1, &corvette, 2, 1, Horizontal).unwrap();
    let p1_before = setup_cells(&pregame, P1);
    let p2_before = setup_cells(&pregame, P2);

    let refused: [(ShipType, usize, usize, Orientation, PlaceError); 5] = [
        (ShipType::new(5, "Ghost", 1), 0, 0, Horizontal, PlaceError::UnknownShipType),
        (corvette, 0, 3, Horizontal, PlaceError::AlreadyPlaced),
        (frigate, 2, 0, Horizontal, PlaceError::OutOfBounds),
        // the first two cells are free, the third is taken
        (frigate, 0, 1, Horizontal, PlaceError::CellOccupied),
        (frigate, 3, 0, Vertical, PlaceError::CellOccupied),
    ];
    for (ship_type, x, y, orientation, error) in refused {
        assert_eq!(Err(error), pregame.place_ship(P1, &ship_type, x, y, orientation));
        assert_eq!(p1_before, setup_cells(&pregame, P1));
        assert_eq!(p2_before, setup_cells(&pregame, P2));
    }

    // the refusals have recorded nothing: the frigate can still be placed
    assert_eq!(Ok(()), pregame.place_ship(P1, &frigate, 0, 0, Vertical));
}

#[test]
fn a_placement_changes_the_cells_of_the_ship_on_its_owners_battlefield_only() {
    let mut pregame = PreGame::new(4, 3).unwrap();
    let frigate = pregame.add_ship_type("Frigate", 3).unwrap();

    pregame.place_ship(P2, &frigate, 1, 2, Horizontal).unwrap();

    assert_eq!(
        vec![Empty, Empty, Empty, Empty, Empty, Empty, Empty, Empty, Empty, Ship, Ship, Ship],
        setup_cells(&pregame, P2)
    );
    assert_eq!(vec![Empty; 12], setup_cells(&pregame, P1));
}

#[test]
fn already_placed_is_permanent() {
    let mut pregame = PreGame::new(4, 4).unwrap();
    let corvette = pregame.add_ship_type("Corvette", 2).unwrap();
    pregame.place_ship(P1, &corvette, 0, 0, Horizontal).unwrap();

    for y in 0..5 {
        for x in 0..5 {
            for orientation in [Horizontal, Vertical] {
                assert_eq!(
                    Err(PlaceError::AlreadyPlaced),
                    pregame.place_ship(P1, &corvette, x, y, orientation)
                );
            }
        }
    }

    // whatever else is done to the game
    let frigate = pregame.add_ship_type("Frigate", 3).unwrap();
    pregame.place_ship(P1, &frigate, 0, 3, Horizontal).unwrap();
    pregame.place_ship(P2, &corvette, 2, 2, Vertical).unwrap();
    assert_eq!(Err(PlaceError::AlreadyPlaced), pregame.place_ship(P1, &corvette, 2, 2, Vertical));
    assert_eq!(Err(PlaceError::AlreadyPlaced), pregame.place_ship(P2, &corvette, 0, 0, Horizontal));
    assert_eq!(Err(PlaceError::AlreadyPlaced), pregame.place_ship(P1, &frigate, 1, 0, Vertical));
}

#[test]
fn start_needs_every_ship_of_both_players() {
    let pregame = PreGame::new(3, 3).unwrap();
    let pregame = match pregame.start() {
        Err((pregame, GameStartError::NoShipsPlaced)) => pregame,
        _ => unreachable!(),
    };

    let mut pregame = pregame;
    let corvette = pregame.add_ship_type("Corvette", 2).unwrap();
    let submarine = pregame.add_ship_type("Submarine", 1).unwrap();
    let mut pregame = match pregame.start() {
        Err((pregame, GameStartError::NoShipsPlaced)) => pregame,
        _ => unreachable!(),
    };

    let placements = [(P1, corvette, 0, 0), (P2, submarine, 1, 1), (P2, corvette, 0, 2)];
    for (player, ship_type, x, y) in placements {
        pregame.place_ship(player, &ship_type, x, y, Horizontal).unwrap();
        pregame = match pregame.start() {
            Err((pregame, GameStartError::NotAllShipsPlaced)) => pregame,
            _ => unreachable!(),
        };
    }

    pregame.place_ship(P1, &submarine, 2, 2, Vertical).unwrap();
    let game = pregame.start().unwrap();
    assert_eq!(P1, game.current_player());
    assert_eq!(None, game.get_winner());
    assert_eq!(vec![corvette, submarine], game.ship_types());
    assert_eq!(3, game.width());
    assert_eq!(3, game.height());
}

#[test]
fn a_refused_start_hands_the_setup_back_unchanged() {
    let build = || {
        let mut pregame = PreGame::new(3, 4).unwrap();
        let corvette = pregame.add_ship_type("Corvette", 2).unwrap();
        pregame.place_ship(P2, &corvette, 1, 1, Vertical).unwrap();
        pregame
    };

    match build().start() {
        Err((pregame, error)) => {
            assert_eq!(GameStartError::NotAllShipsPlaced, error);
            assert_eq!(build(), pregame);
            assert_eq!(setup_cells(&build(), P2), setup_cells(&pregame, P2));
        }
        Ok(_) => unreachable!(),
    }
}

#[test]
fn the_started_game_has_the_battlefields_of_the_setup() {
    let game = two_ship_game();

    assert_eq!(
        vec![Ship, Ship, Empty, Empty, Empty, Empty, Empty, Empty, Empty, Empty, Empty, Ship],
        owner_cells(&game, P1)
    );
    assert_eq!(
        vec![Ship, Empty, Empty, Empty, Empty, Ship, Empty, Empty, Empty, Ship, Empty, Empty],
        owner_cells(&game, P2)
    );
    assert_eq!(vec![Empty; 12], opponent_cells(&game, P1));
    assert_eq!(vec![Empty; 12], opponent_cells(&game, P2));
}

#[test]
fn shooting_twice_at_a_cell_is_refused() {
    let mut game = two_ship_game();

    // after a hit
    assert_eq!(Ok(ShootOk::Hit), game.shoot(P2, 1, 1));
    assert_eq!(Err(ShootError::AlreadyShot), game.shoot(P2, 1, 1));
    assert_eq!(Err(ShootError::AlreadyShot), game.shoot(P2, 1, 1));
    // after a ship was destroyed
    assert_eq!(Ok(ShootOk::Destroyed), game.shoot(P2, 1, 2));
    assert_eq!(Err(ShootError::AlreadyShot), game.shoot(P2, 1, 2));
    // after a miss the turn has passed ...
    assert_eq!(Ok(ShootOk::Miss), game.shoot(P2, 3, 0));
    assert_eq!(Err(ShootError::NotThisPlayersTurn), game.shoot(P2, 3, 0));
    assert_eq!(Ok(ShootOk::Miss), game.shoot(P1, 3, 0));
    // ... and once it has come back, the cell is still marked
    assert_eq!(Err(ShootError::AlreadyShot), game.shoot(P2, 3, 0));
    assert_eq!(Err(ShootError::AlreadyShot), game.shoot(P2, 1, 1));
    // after the winning shot the game is over
    assert_eq!(Ok(ShootOk::WinningShot), game.shoot(P2, 0, 0));
    assert_eq!(Err(ShootError::GameOver), game.shoot(P2, 0, 0));
}

#[test]
fn a_refused_shot_changes_nothing() {
    let mut game = two_ship_game();
    game.shoot(P2, 1, 1).unwrap();
    let owner = (owner_cells(&game, P1), owner_cells(&game, P2));
    let opponent = (opponent_cells(&game, P1), opponent_cells(&game, P2));

    assert_eq!(Err(ShootError::NotThisPlayersTurn), game.shoot(P1, 0, 0));
    assert_eq!(Err(ShootError::OutOfBounds), game.shoot(P2, 4, 0));
    assert_eq!(Err(ShootError::AlreadyShot), game.shoot(P2, 1, 1));

    assert_eq!(P1, game.current_player());
    assert_eq!(None, game.get_winner());
    assert_eq!(owner, (owner_cells(&game, P1), owner_cells(&game, P2)));
    assert_eq!(opponent, (opponent_cells(&game, P1), opponent_cells(&game, P2)));
    // the ship that was hit once has lost no more health
    assert_eq!(Ok(ShootOk::Destroyed), game.shoot(P2, 1, 2));
}

#[test]
fn the_turn_changes_on_a_miss_and_on_nothing_else() {
    let mut game = two_ship_game();
    let shots = [
        (P1, 0, 0, Err(ShootError::NotThisPlayersTurn)),
        (P2, 9, 9, Err(ShootError::OutOfBounds)),
        (P2, 1, 1, Ok(ShootOk::Hit)),
        (P2, 1, 1, Err(ShootError::AlreadyShot)),
        (P2, 1, 2, Ok(ShootOk::Destroyed)),
        (P2, 2, 2, Ok(ShootOk::Miss)),
        (P2, 0, 0, Err(ShootError::NotThisPlayersTurn)),
        (P1, 2, 2, Ok(ShootOk::Miss)),
        (P2, 3, 2, Ok(ShootOk::Miss)),
        (P1, 3, 2, Ok(ShootOk::Destroyed)),
        (P1, 1, 0, Ok(ShootOk::Hit)),
        (P1, 0, 0, Ok(ShootOk::WinningShot)),
        (P1, 0, 1, Err(ShootError::GameOver)),
        (P2, 0, 0, Err(ShootError::NotThisPlayersTurn)),
    ];

    for (target, x, y, expected) in shots {
        let before = game.current_player();
        let result = game.shoot(target, x, y);
        assert_eq!(expected, result);
        assert_eq!(result == Ok(ShootOk::Miss), game.current_player() != before);
        if result == Ok(ShootOk::Miss) {
            assert_eq!(before.next(), game.current_player());
        }
    }
    assert_eq!(Some(P2), game.get_winner());
}

#[test]
fn the_winning_shot_is_the_one_that_sinks_the_last_ship() {
    let mut game = two_ship_game();

    assert_eq!(Ok(ShootOk::Destroyed), game.shoot(P2, 0, 0));
    assert_eq!(None, game.get_winner());
    assert_eq!(Ok(ShootOk::Hit), game.shoot(P2, 1, 2));
    assert_eq!(None, game.get_winner());
    assert_eq!(Ok(ShootOk::WinningShot), game.shoot(P2, 1, 1));
    assert_eq!(Some(P1), game.get_winner());

    // player 1 sees the three hits on the battlefield of player 2
    let seen_by_p1 = opponent_cells(&game, P1);
    let seen_by_p2 = opponent_cells(&game, P2);
    assert_eq!(
        vec![Hit, Empty, Empty, Empty, Empty, Hit, Empty, Empty, Empty, Hit, Empty, Empty],
        seen_by_p1
    );
    assert_eq!(vec![Empty; 12], seen_by_p2);

    // from now on nothing is accepted, and nothing changes
    for y in 0..4 {
        for x in 0..5 {
            assert_eq!(Err(ShootError::GameOver), game.shoot(P2, x, y));
            assert_eq!(Err(ShootError::NotThisPlayersTurn), game.shoot(P1, x, y));
        }
    }
    assert_eq!(seen_by_p1, opponent_cells(&game, P1));
    assert_eq!(seen_by_p2, opponent_cells(&game, P2));
    assert_eq!(Some(P1), game.get_winner());
    assert_eq!(P1, game.current_player());
}

#[test]
fn the_two_views_of_a_battlefield() {
    let mut game = two_ship_game();
    game.shoot(P2, 1, 1).unwrap();
    game.shoot(P2, 2, 0).unwrap();
    game.shoot(P1, 0, 0).unwrap();
    game.shoot(P1, 0, 2).unwrap();

    // the battlefield of player 2, as its owner sees it and as player 1 sees it
    assert_eq!(
        vec![Ship, Empty, Empty, Empty, Empty, Hit, Empty, Empty, Empty, Ship, Empty, Empty],
        owner_cells(&game, P2)
    );
    assert_eq!(
        vec![Empty, Empty, Miss, Empty, Empty, Hit, Empty, Empty, Empty, Empty, Empty, Empty],
        opponent_cells(&game, P1)
    );
    // the battlefield of player 1, as its owner sees it and as player 2 sees it
    assert_eq!(
        vec![Hit, Ship, Empty, Empty, Empty, Empty, Empty, Empty, Empty, Empty, Empty, Ship],
        owner_cells(&game, P1)
    );
    assert_eq!(
        vec![Hit, Empty, Empty, Empty, Empty, Empty, Empty, Empty, Miss, Empty, Empty, Empty],
        opponent_cells(&game, P2)
    );
}

#[test]
fn the_opponent_view_is_of_the_battlefield_shot_at() {
    let mut pregame = PreGame::new(3, 3).unwrap();
    let corvette = pregame.add_ship_type("Corvette", 2).unwrap();
    pregame.place_ship(P1, &corvette, 0, 0, Horizontal).unwrap();
    pregame.place_ship(P2, &corvette, 0, 0, Horizontal).unwrap();
    let mut game = pregame.start().unwrap();

    assert_eq!(Ok(ShootOk::Hit), game.shoot(P2, 0, 0));

    // the shooter sees the hit; the player who was hit sees nothing of the shooter's ships
    assert_eq!(Hit, game.get_opponent_cell(P1, 0, 0));
    assert_eq!(Empty, game.get_opponent_cell(P2, 0, 0));
    assert_eq!(Hit, game.get_cell(P2, 0, 0));
    assert_eq!(Ship, game.get_cell(P1, 0, 0));
    // a ship that was not hit does not show
    assert_eq!(Empty, game.get_opponent_cell(P1, 1, 0));
    assert_eq!(Ship, game.get_cell(P2, 1, 0));
}

#[test]
fn the_opponent_view_does_not_tell_where_the_ships_are() {
    let play = |x: usize, y: usize, orientation: Orientation| {
        let mut pregame = PreGame::new(4, 4).unwrap();
        let frigate = pregame.add_ship_type("Frigate", 3).unwrap();
        pregame.place_ship(P1, &frigate, 0, 0, Horizontal).unwrap();
        pregame.place_ship(P2, &frigate, x, y, orientation).unwrap();
        let mut game = pregame.start().unwrap();
        assert_eq!(Ok(ShootOk::Miss), game.shoot(P2, 3, 3));
        assert_eq!(Ok(ShootOk::Miss), game.shoot(P1, 3, 3));
        opponent_cells(&game, P1)
    };

    let seen = play(0, 0, Horizontal);
    assert_eq!(seen, play(0, 1, Vertical));
    assert_eq!(seen, play(1, 2, Horizontal));
    assert_eq!(seen, play(2, 0, Vertical));
    assert_eq!(15, seen.iter().filter(|cell| **cell == Empty).count());
    assert_eq!(Miss, seen[15]);
}

#[test]
fn a_game_without_ships_is_over_from_the_start() {
    let battlefields = vec![Battlefield::new(2, 2).unwrap(), Battlefield::new(2, 2).unwrap()];
    let mut game = Game::new(Vec::new(), battlefields);

    assert_eq!(Some(P2), game.get_winner());
    assert_eq!(Err(ShootError::GameOver), game.shoot(P2, 0, 0));
    assert_eq!(Err(ShootError::NotThisPlayersTurn), game.shoot(P1, 0, 0));
    assert_eq!(0, game.ship_types().len());
}

#[test]
fn a_game_on_battlefields_made_by_hand() {
    let mut bf1 = Battlefield::new(2, 2).unwrap();
    let mut bf2 = Battlefield::new(2, 2).unwrap();
    bf1.get_mut_cell(0, 0).unwrap().set_ship_type_id(0);
    bf2.get_mut_cell(1, 1).unwrap().set_ship_type_id(0);
    let mut game = Game::new(vec![ShipType::new(0, "Submarine", 1)], vec![bf1, bf2]);

    assert_eq!(CellStatus::Ship, game.get_cell(P1, 0, 0));
    assert_eq!(CellStatus::Ship, game.get_cell(P2, 1, 1));
    assert_eq!(Ok(ShootOk::Miss), game.shoot(P2, 0, 0));
    assert_eq!(Ok(ShootOk::WinningShot), game.shoot(P1, 0, 0));
    assert_eq!(Some(P2), game.get_winner());
}
