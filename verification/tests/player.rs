use lib_battleship::common::Player::{P1, P2};

#[test]
fn should_alternate_between_players() {
    assert_eq!(P2, P1.next());
    assert_eq!(P1, P2.next());
}

#[test]
fn next_twice_is_the_same_player() {
    assert_eq!(P1, P1.next().next());
    assert_eq!(P2, P2.next().next());
}
