use lib_battleship::common::CellStatus;
use lib_battleship::common::Dimensional;
use lib_battleship::common::Orientation::{Horizontal, Vertical};
use lib_battleship::common::Player::{P1, P2};
use lib_battleship::common::ShipType;
use lib_battleship::common::ShipTypeContainer;
use lib_battleship::results::GameError::IllegalDimensions;
use lib_battleship::results::GameStartError::{NoShipsPlaced, NotAllShipsPlaced};
use lib_battleship::results::PlaceError::{
    AlreadyPlaced, CellOccupied, OutOfBounds, UnknownShipType,
};
use lib_battleship::results::ShipTypeError::{IllegalShipLength, ShipTooLongForBattlefield};
use lib_battleship::PreGame;

#[test]
fn constructor_should_check_dimensions() {
    assert_eq!(Err(IllegalDimensions), PreGame::new(0, 0));
    assert_eq!(Err(IllegalDimensions), PreGame::new(0, 5));
    assert_eq!(Err(IllegalDimensions), PreGame::new(5, 0));
    assert!(PreGame::new(2, 2).is_ok());
}

#[test]
fn pregame_should_return_dimensions() {
    let game = PreGame::new(2, 3).unwrap();
    assert_eq!(2, game.width());
    assert_eq!(3, game.height());
}

#[test]
fn should_allow_adding_ship_types() {
    let mut game = PreGame::new(3, 3).unwrap();
    assert_eq!(0, game.ship_types().len());

    let ship_type = game.add_ship_type("Corvette", 2).unwrap();
    assert_eq!(1, game.ship_types().len());

    let types = game.ship_types();
    let st = types.first().unwrap();
    assert_eq!(ship_type, *st);
    assert_eq!("Corvette", st.name());
    assert_eq!(2, st.length());
}

#[test]
fn should_disallow_zero_length_ship_types() {
    let mut game = PreGame::new(3, 3).unwrap();

    assert_eq!(Err(IllegalShipLength), game.add_ship_type("Jetski", 0));
}

#[test]
fn should_disallow_too_long_ship_types() {
    let mut game = PreGame::new(3, 3).unwrap();

    game.add_ship_type("Submarine", 1).unwrap();
    assert_eq!(Err(ShipTooLongForBattlefield), game.add_ship_type("Battleship", 4));
}

#[test]
fn should_allow_placing_ships() {
    let mut game = PreGame::new(3, 3).unwrap();
    let corvette = game.add_ship_type("Corvette", 2).unwrap();

    assert_eq!(Ok(()), game.place_ship(P1, &corvette, 0, 0, Horizontal));
    assert_eq!(Ok(()), game.place_ship(P2, &corvette, 0, 0, Vertical));
}

#[test]
fn should_disallow_placing_ships_twice() {
    let mut game = PreGame::new(3, 3).unwrap();
    let corvette = game.add_ship_type("Corvette", 2).unwrap();

    assert_eq!(Ok(()), game.place_ship(P1, &corvette, 0, 0, Horizontal));
    assert_eq!(Err(AlreadyPlaced), game.place_ship(P1, &corvette, 0, 1, Horizontal));
}

#[test]
fn should_disallow_placing_ships_of_unknown_type() {
    let mut game = PreGame::new(3, 3).unwrap();
    let jetski = game.add_ship_type("Jetski", 1).unwrap();
    let car = ShipType::new(0, "Car", 1);
    let fake_jetski = ShipType::new(0, "Jetski", 1);

    assert_eq!(Err(UnknownShipType), game.place_ship(P1, &car, 0, 0, Horizontal));
    assert_eq!(jetski, fake_jetski);
    assert_eq!(Ok(()), game.place_ship(P1, &fake_jetski, 0, 0, Horizontal));
}

#[test]
fn should_disallow_placing_ships_out_of_bounds() {
    let mut game = PreGame::new(3, 3).unwrap();
    let corvette = game.add_ship_type("Corvette", 2).unwrap();

    assert_eq!(Err(OutOfBounds), game.place_ship(P1, &corvette, 2, 0, Horizontal));
    assert_eq!(Err(OutOfBounds), game.place_ship(P1, &corvette, 0, 2, Vertical));
    assert_eq!(Ok(()), game.place_ship(P1, &corvette, 1, 0, Horizontal));
}

#[test]
fn should_disallow_placing_ships_on_top_of_each_other() {
    let mut game = PreGame::new(3, 3).unwrap();
    let corvette = game.add_ship_type("Corvette", 2).unwrap();
    let frigate = game.add_ship_type("Frigate", 2).unwrap();

    assert_eq!(Ok(()), game.place_ship(P2, &corvette, 0, 0, Horizontal));
    assert_eq!(Err(CellOccupied), game.place_ship(P2, &frigate, 1, 0, Vertical));
}

#[test]
fn should_not_start_when_no_ships_placed() {
    let mut game = PreGame::new(2, 2).unwrap();
    let _ = game.add_ship_type("Corvette", 1).unwrap();

    if let Err((_, NoShipsPlaced)) = game.start() {
        // ok
    } else {
        unreachable!()
    }
}

#[test]
fn should_not_start_when_not_all_ships_placed() {
    let mut game = PreGame::new(2, 2).unwrap();
    let submarine = game.add_ship_type("Submarine", 1).unwrap();
    let corvette = game.add_ship_type("Corvette", 2).unwrap();

    game.place_ship(P1, &submarine, 0, 0, Horizontal).unwrap();
    game.place_ship(P2, &submarine, 0, 0, Horizontal).unwrap();
    game.place_ship(P1, &corvette, 0, 1, Horizontal).unwrap();

    if let Err((_, NotAllShipsPlaced)) = game.start() {
        // ok
    } else {
        unreachable!()
    }
}

#[test]
fn should_start_game() {
    let mut game = PreGame::new(2, 2).unwrap();
    let submarine = game.add_ship_type("Submarine", 1).unwrap();
    game.place_ship(P1, &submarine, 0, 0, Horizontal).unwrap();
    game.place_ship(P2, &submarine, 0, 0, Horizontal).unwrap();

    if let Ok(_) = game.start() {
        // ok
    } else {
        unreachable!()
    }
}

#[test]
fn can_get_cell_status() {
    let mut game = PreGame::new(2, 2).unwrap();
    let submarine = game.add_ship_type("Submarine", 1).unwrap();

    assert_eq!(CellStatus::Empty, game.get_cell(P1, 0, 0));
    game.place_ship(P1, &submarine, 0, 0, Horizontal).unwrap();
    assert_eq!(CellStatus::Ship, game.get_cell(P1, 0, 0));
}
