use lib_battleship::battlefield::ShipStatus;
use lib_battleship::common::Player::{P1, P2};
use lib_battleship::common::ShipType;

#[test]
fn should_init_with_length() {
    let types = vec![ShipType::new(0, "Corvette", 2)];
    let status = ShipStatus::new(&types);

    assert_eq!(2, status.get_health(P1, 0));
    assert_eq!(2, status.get_health(P2, 0));
}

#[test]
fn should_reduce_health() {
    let types = vec![ShipType::new(0, "Corvette", 2)];
    let mut status = ShipStatus::new(&types);

    assert_eq!(1, status.hit(P1, 0));
    assert_eq!(1, status.get_health(P1, 0));
    assert_eq!(1, status.hit(P2, 0));
    assert_eq!(1, status.get_health(P2, 0));
}

#[test]
fn should_sum_player_health() {
    let types = vec![ShipType::new(0, "Corvette", 2)];
    let mut status = ShipStatus::new(&types);

    assert_eq!(2, status.get_sum_health(P1));
    assert_eq!(1, status.hit(P1, 0));
    assert_eq!(1, status.get_sum_health(P1));

    assert_eq!(2, status.get_sum_health(P2));
    assert_eq!(1, status.hit(P2, 0));
    assert_eq!(1, status.get_sum_health(P2));
}

#[test]
fn ship_status_should_sum_player_health() {
    let types = vec![ShipType::new(0, "Corvette", 2)];
    let mut status = ShipStatus::new(&types);

    assert_eq!(2, status.get_sum_health(P1));
    assert_eq!(1, status.hit(P1, 0));
    assert_eq!(1, status.get_sum_health(P1));

    assert_eq!(2, status.get_sum_health(P2));
    assert_eq!(1, status.hit(P2, 0));
    assert_eq!(1, status.get_sum_health(P2));
}

#[test]
fn sum_health_adds_up_all_ships_of_one_player() {
    let types = vec![
        ShipType::new(0, "Submarine", 1),
        ShipType::new(1, "Corvette", 2),
        ShipType::new(2, "Battleship", 5),
    ];
    let mut status = ShipStatus::new(&types);

    assert_eq!(8, status.get_sum_health(P1));
    assert_eq!(8, status.get_sum_health(P2));

    assert_eq!(4, status.hit(P2, 2));
    assert_eq!(3, status.hit(P2, 2));
    assert_eq!(0, status.hit(P2, 0));

    assert_eq!(5, status.get_sum_health(P2));
    assert_eq!(0, status.get_health(P2, 0));
    assert_eq!(2, status.get_health(P2, 1));
    assert_eq!(3, status.get_health(P2, 2));
    assert_eq!(8, status.get_sum_health(P1));
    assert_eq!(5, status.get_health(P1, 2));
}

#[test]
fn health_stops_at_zero() {
    let types = vec![ShipType::new(0, "Submarine", 1), ShipType::new(1, "Corvette", 2)];
    let mut status = ShipStatus::new(&types);

    assert_eq!(0, status.hit(P1, 0));
    assert_eq!(0, status.hit(P1, 0));
    assert_eq!(0, status.get_health(P1, 0));
    assert_eq!(2, status.get_sum_health(P1));
}

#[test]
fn no_ship_types_no_health() {
    let status = ShipStatus::new(&Vec::new());

    assert_eq!(0, status.get_sum_health(P1));
    assert_eq!(0, status.get_sum_health(P2));
}
