use battleship_game_lib::inventory::grid::Grid;
use battleship_game_lib::inventory::ship::{Orientation, ShipType};
use battleship_game_lib::runtime::{GridPoint, InvalidCoordinate, Play, Session, Shot, ShotStatus};
use battleship_game_lib::GamePlay;

const MISS: Shot = Shot { status: ShotStatus::Miss, ship_type: None, point: None };
const REPEAT: Shot = Shot { status: ShotStatus::Repeat, ship_type: None, point: None };

fn hit(kind: ShipType, points: i32) -> Shot {
    Shot { status: ShotStatus::Hit(kind, points), ship_type: Some(kind), point: Some(points) }
}

fn carrier_session() -> Session {
    let mut grid = Grid::build();
    grid.add_ship(ShipType::AircraftCarrier, GridPoint { x: 1, y: 1 }, Orientation::Horizontal, 5);
    grid.add_ship(ShipType::Battleship, GridPoint { x: 1, y: 3 }, Orientation::Horizontal, 4);
    grid.add_ship(ShipType::Submarine, GridPoint { x: 1, y: 5 }, Orientation::Horizontal, 3);
    grid.add_ship(ShipType::Destroyer, GridPoint { x: 10, y: 1 }, Orientation::Vertical, 2);
    grid.add_ship(ShipType::PatrolBoat, GridPoint { x: 10, y: 10 }, Orientation::Vertical, 1);
    Session::build_from_allocation(String::from("Ada"), grid)
}

#[test]
fn lib_test_play() {
    let mut game = GamePlay::initialize();
    let play = game.start_new(String::from("Adetayo"));

    play.get_session_as_mut().shoot_ship(GridPoint { x: 1, y: 1 });
    play.get_session_as_mut().shoot_ship(GridPoint { x: 2, y: 2 });
    play.get_session_as_mut().shoot_ship(GridPoint { x: 3, y: 3 });
    play.get_session_as_mut().shoot_ship(GridPoint { x: 4, y: 4 });
    play.get_session_as_mut().shoot_ship(GridPoint { x: 5, y: 5 });

    println!("{:?}", play.get_session_as_ref().get_destroyed_ships());

    play.get_session_as_mut().shoot_ship(GridPoint { x: 6, y: 6 });
    play.get_session_as_mut().shoot_ship(GridPoint { x: 7, y: 7 });
    play.get_session_as_mut().shoot_ship(GridPoint { x: 8, y: 8 });
    play.get_session_as_mut().shoot_ship(GridPoint { x: 9, y: 9 });

    println!("{:?}", play.get_session_as_ref().get_destroyed_ships());
}

#[test]
fn test_ship_allocation() {
    let mut game_session = Session::start(String::from("Adetayo"));

    game_session.shoot_ship(GridPoint { x: 7, y: 7 });

    println!("{:?}", game_session.get_destroyed_ships());
}

#[test]
fn runtime_test_play() {
    let mut game = GamePlay::initialize();
    let play = game.start_new(String::from("Adetayo"));

    play.get_session_as_mut().shoot_ship(GridPoint { x: 7, y: 7 });

    println!("{:?}", play.get_session_as_ref().get_destroyed_ships());
}

#[test]
fn fresh_session() {
    let session = Session::build();
    assert_eq!(session.get_player_name(), "");
    assert_eq!(session.get_points(), 0);
    assert_eq!(session.get_remaining_shots(), 10);
    assert!(session.is_shot_available());
    assert!(session.is_any_ship_left());
    assert!(session.get_destroyed_ships().is_empty());
    assert!(session.get_shot_history().is_empty());
    assert!(!session.debug);
}

#[test]
fn started_session_is_ready_for_play() {
    let session = Session::start(String::from("Grace"));
    assert_eq!(session.get_player_name(), "Grace");
    assert_eq!(session.get_points(), 0);
    assert_eq!(session.get_remaining_shots(), 10);
    assert!(session.is_any_ship_left());
    assert!(session.get_destroyed_ships().is_empty());
    let listing = session.display_ships_location();
    assert_eq!(listing.lines().count(), 5);
    assert_eq!(listing.matches('(').count(), 15);
}

#[test]
fn first_shot_on_the_carrier_hits() {
    let mut session = carrier_session();
    assert_eq!(session.shoot_ship(GridPoint { x: 1, y: 1 }), hit(ShipType::AircraftCarrier, 2));
    assert_eq!(session.get_points(), 2);
    assert_eq!(session.get_remaining_shots(), 9);
    assert_eq!(session.get_shot_history(), &vec![GridPoint { x: 1, y: 1 }]);
}

#[test]
fn second_shot_at_the_same_point_is_a_repeat() {
    let mut session = carrier_session();
    session.shoot_ship(GridPoint { x: 1, y: 1 });
    assert_eq!(session.shoot_ship(GridPoint { x: 1, y: 1 }), REPEAT);
    assert_eq!(session.get_remaining_shots(), 9);
    assert_eq!(session.get_points(), 2);
    assert_eq!(session.get_shot_history().len(), 1);
}

#[test]
fn repeat_after_a_miss_costs_one_shot_in_all() {
    let mut session = carrier_session();
    let p = GridPoint { x: 5, y: 9 };
    assert_eq!(session.shoot_ship(p), MISS);
    assert_eq!(session.shoot_ship(p), REPEAT);
    assert_eq!(session.get_remaining_shots(), 9);
    assert_eq!(session.get_points(), 0);
    assert_eq!(session.get_shot_history(), &vec![p]);
}

#[test]
fn shooting_every_cell_of_the_carrier() {
    let mut session = carrier_session();
    assert_eq!(session.shoot_ship(GridPoint { x: 1, y: 1 }), hit(ShipType::AircraftCarrier, 2));
    for x in 2..=5 {
        assert_eq!(session.shoot_ship(GridPoint { x, y: 1 }), MISS);
    }
    let wrecks = session.get_destroyed_ships();
    assert_eq!(wrecks.len(), 1);
    assert_eq!(wrecks[0].get_type(), ShipType::AircraftCarrier);
    assert!(session.is_any_ship_left());
    assert_eq!(session.get_points(), 2);
    assert_eq!(session.get_remaining_shots(), 5);
}

#[test]
fn destroying_the_whole_fleet() {
    let mut session = carrier_session();
    assert_eq!(session.shoot_ship(GridPoint { x: 3, y: 1 }), hit(ShipType::AircraftCarrier, 2));
    assert!(session.is_any_ship_left());
    assert_eq!(session.shoot_ship(GridPoint { x: 4, y: 3 }), hit(ShipType::Battleship, 4));
    assert!(session.is_any_ship_left());
    assert_eq!(session.shoot_ship(GridPoint { x: 2, y: 5 }), hit(ShipType::Submarine, 6));
    assert!(session.is_any_ship_left());
    assert_eq!(session.shoot_ship(GridPoint { x: 10, y: 2 }), hit(ShipType::Destroyer, 8));
    assert!(session.is_any_ship_left());
    assert_eq!(session.shoot_ship(GridPoint { x: 10, y: 10 }), hit(ShipType::PatrolBoat, 10));
    assert!(!session.is_any_ship_left());
    assert_eq!(session.get_points(), 30);
    assert_eq!(session.get_remaining_shots(), 5);
    let kinds: Vec<ShipType> = session.get_destroyed_ships().iter().map(|s| s.get_type()).collect();
    assert_eq!(
        kinds,
        vec![
            ShipType::AircraftCarrier,
            ShipType::Battleship,
            ShipType::Submarine,
            ShipType::Destroyer,
            ShipType::PatrolBoat
        ]
    );
}

#[test]
fn shot_at_open_water_misses() {
    let mut session = carrier_session();
    assert_eq!(session.shoot_ship(GridPoint { x: 7, y: 7 }), MISS);
    assert_eq!(session.get_remaining_shots(), 9);
    assert_eq!(session.get_points(), 0);
    assert!(session.get_destroyed_ships().is_empty());
}

#[test]
fn shots_are_spent_past_the_budget() {
    let mut session = carrier_session();
    for x in 1..=10 {
        assert!(session.is_shot_available());
        session.shoot_ship(GridPoint { x, y: 8 });
    }
    assert_eq!(session.get_remaining_shots(), 0);
    assert!(!session.is_shot_available());
    assert_eq!(session.shoot_ship(GridPoint { x: 1, y: 9 }), MISS);
    assert_eq!(session.get_remaining_shots(), -1);
    assert!(!session.is_shot_available());
    assert_eq!(session.get_shot_history().len(), 11);
}

#[test]
fn every_point_of_the_board_can_be_fired_at_once() {
    let mut session = Session::start(String::from("Ada"));
    let mut hits = 0;
    for y in 1..=10 {
        for x in 1..=10 {
            let before = session.get_remaining_shots();
            let shot = session.shoot_ship(GridPoint { x, y });
            assert_ne!(shot.status, ShotStatus::Repeat);
            assert_eq!(session.get_remaining_shots(), before - 1);
            if shot.status != ShotStatus::Miss {
                hits += 1;
            }
        }
    }
    assert_eq!(hits, 5);
    assert_eq!(session.get_points(), 30);
    assert_eq!(session.get_remaining_shots(), -90);
    assert!(!session.is_any_ship_left());
    for y in 1..=10 {
        for x in 1..=10 {
            assert_eq!(session.shoot_ship(GridPoint { x, y }), REPEAT);
        }
    }
    assert_eq!(session.get_remaining_shots(), -90);
    assert_eq!(session.get_shot_history().len(), 100);
}

#[test]
fn points_off_the_board_are_refused() {
    let mut session = carrier_session();
    for p in [
        GridPoint { x: 0, y: 1 },
        GridPoint { x: 1, y: 0 },
        GridPoint { x: 11, y: 5 },
        GridPoint { x: 5, y: 11 },
        GridPoint { x: -1, y: -1 },
        GridPoint { x: i32::MAX, y: i32::MIN },
    ] {
        assert!(!p.is_valid());
        assert_eq!(session.try_shoot_ship(p), Err(InvalidCoordinate { point: p }));
    }
    assert_eq!(session.get_remaining_shots(), 10);
    assert!(session.get_shot_history().is_empty());
    assert_eq!(session.try_shoot_ship(GridPoint { x: 1, y: 1 }), Ok(hit(ShipType::AircraftCarrier, 2)));
    assert_eq!(session.try_shoot_ship(GridPoint { x: 1, y: 1 }), Ok(REPEAT));
    assert_eq!(session.try_shoot_ship(GridPoint { x: 10, y: 9 }), Ok(MISS));
    assert_eq!(session.get_remaining_shots(), 8);
}

#[test]
fn index_and_coordinates_determine_each_other() {
    assert_eq!(GridPoint { x: 1, y: 1 }.to_index(), 0);
    assert_eq!(GridPoint { x: 10, y: 1 }.to_index(), 9);
    assert_eq!(GridPoint { x: 1, y: 2 }.to_index(), 10);
    assert_eq!(GridPoint { x: 4, y: 7 }.to_index(), 63);
    assert_eq!(GridPoint { x: 10, y: 10 }.to_index(), 99);
    for i in 0..100 {
        let p = GridPoint::from_index(i);
        assert!(p.is_valid());
        assert_eq!(p.to_index(), i);
    }
    assert_eq!(GridPoint::default(), GridPoint::new(1, 1));
    assert_eq!(GridPoint::new(3, 4), GridPoint { x: 3, y: 4 });
}

#[test]
fn a_copy_of_a_session_plays_like_the_session() {
    let mut played = Session::start(String::from("Ada"));
    for x in 1..=10 {
        played.shoot_ship(GridPoint { x, y: x });
    }
    let mut copy = played.clone();
    assert_eq!(copy.get_player_name(), played.get_player_name());
    assert_eq!(copy.get_points(), played.get_points());
    assert_eq!(copy.get_remaining_shots(), played.get_remaining_shots());
    assert_eq!(copy.get_shot_history(), played.get_shot_history());
    assert_eq!(copy.get_destroyed_ships(), played.get_destroyed_ships());
    assert_eq!(copy.display_ships_location(), played.display_ships_location());
    for y in 1..=10 {
        for x in 1..=10 {
            let p = GridPoint { x, y };
            assert_eq!(copy.shoot_ship(p), played.shoot_ship(p));
            assert_eq!(copy.get_points(), played.get_points());
        }
    }
}

#[test]
fn play_hands_out_its_session() {
    let mut play = Play::init(String::from("Ada"));
    assert_eq!(play.get_session_as_ref().get_remaining_shots(), 10);
    play.get_session_as_mut().shoot_ship(GridPoint { x: 2, y: 3 });
    play.get_session_as_mut().debug = true;
    assert_eq!(play.get_session_as_ref().get_remaining_shots(), 9);
    assert!(play.get_session_as_ref().debug);
    let copy = play.clone();
    assert_eq!(copy.get_session_as_ref().get_shot_history(), &vec![GridPoint { x: 2, y: 3 }]);
    assert!(copy.get_session_as_ref().debug);
}
