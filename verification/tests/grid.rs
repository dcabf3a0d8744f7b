use battleship_game_lib::inventory::grid::{Grid, Square};
use battleship_game_lib::inventory::ship::{Orientation, Ship, ShipType};
use battleship_game_lib::runtime::{GridPoint, ShotStatus};

const KINDS: [ShipType; 5] = [
    ShipType::AircraftCarrier,
    ShipType::Battleship,
    ShipType::Submarine,
    ShipType::Destroyer,
    ShipType::PatrolBoat,
];

fn cells_of(grid: &Grid, kind: ShipType) -> Vec<GridPoint> {
    let mut cells = Vec::new();
    for y in 1..=10 {
        for x in 1..=10 {
            let p = GridPoint { x, y };
            if grid.get_ship(p) == Some(kind) {
                cells.push(p);
            }
        }
    }
    cells
}

#[test]
fn inventory_hit_ship_on_grid_true() {
    let mut grid = Grid::build();
    let mut ship = Ship::build(ShipType::AircraftCarrier);
    ship.origin = Some(GridPoint { x: 1, y: 1 });
    grid.add_ship(ship.get_type(), ship.origin.unwrap(), *ship.get_orientation(), ship.get_size());
    let hit_ship = grid.hit_ship(ship.origin.unwrap()) != ShotStatus::Miss;
    assert_eq!(true, hit_ship)
}

#[test]
fn inventory_hit_ship_on_grid_false() {
    let mut grid = Grid::build();
    let mut ship = Ship::build(ShipType::AircraftCarrier);
    ship.origin = Some(GridPoint { x: 1, y: 1 });
    grid.add_ship(ship.get_type(), ship.origin.unwrap(), *ship.get_orientation(), ship.get_size());
    let hit_ship = grid.hit_ship(GridPoint { x: 1, y: 2 }) != ShotStatus::Miss;
    assert_eq!(false, hit_ship)
}

#[test]
fn inventory_remove_ship_on_grid_true() {
    let mut grid = Grid::build();
    let mut ship = Ship::build(ShipType::AircraftCarrier);
    ship.origin = Some(GridPoint { x: 1, y: 1 });
    grid.add_ship(ship.get_type(), ship.origin.unwrap(), *ship.get_orientation(), ship.get_size());
    let ship_removed =
        grid.remove_ship(ship.get_type(), ship.origin.unwrap(), *ship.get_orientation(), ship.get_size())
            != ShotStatus::Miss;
    assert_eq!(true, ship_removed)
}

#[test]
fn inventory_remove_ship_on_grid_false() {
    let mut grid = Grid::build();
    let mut ship = Ship::build(ShipType::AircraftCarrier);
    ship.origin = Some(GridPoint { x: 1, y: 1 });
    grid.add_ship(ship.get_type(), ship.origin.unwrap(), *ship.get_orientation(), ship.get_size());
    grid.remove_ship(ship.get_type(), ship.origin.unwrap(), *ship.get_orientation(), ship.get_size());
    let ship_removed =
        grid.remove_ship(ship.get_type(), ship.origin.unwrap(), *ship.get_orientation(), ship.get_size())
            != ShotStatus::Miss;
    assert_eq!(false, ship_removed)
}

#[test]
fn grid_hit_ship_on_grid_true() {
    let mut grid = Grid::build();
    let mut ship = Ship::build(ShipType::AircraftCarrier);
    ship.origin = Some(GridPoint { x: 1, y: 1 });
    grid.add_ship(ship.get_type(), GridPoint { x: 1, y: 1 }, Orientation::Horizontal, ship.get_size());
    let hit_ship = grid.hit_ship(ship.origin.unwrap());
    assert_eq!(ShotStatus::Hit(ship.get_type(), ship.get_point()), hit_ship)
}

#[test]
fn grid_hit_ship_on_grid_false() {
    let mut grid = Grid::build();
    let mut ship = Ship::build(ShipType::AircraftCarrier);
    ship.origin = Some(GridPoint { x: 1, y: 1 });
    grid.add_ship(ship.get_type(), GridPoint { x: 1, y: 1 }, Orientation::Horizontal, ship.get_size());
    let hit_ship = grid.hit_ship(GridPoint { x: 1, y: 2 });
    assert_eq!(ShotStatus::Miss, hit_ship)
}

#[test]
fn grid_remove_ship_on_grid_true() {
    let mut grid = Grid::build();
    let mut ship = Ship::build(ShipType::AircraftCarrier);
    ship.origin = Some(GridPoint { x: 1, y: 1 });
    grid.add_ship(ship.get_type(), GridPoint { x: 1, y: 1 }, Orientation::Horizontal, ship.get_size());
    let ship_removed =
        grid.remove_ship(ship.get_type(), GridPoint { x: 1, y: 1 }, Orientation::Horizontal, ship.get_size());
    assert_eq!(ShotStatus::Hit(ship.get_type(), ship.get_point()), ship_removed)
}

#[test]
fn grid_remove_ship_on_grid_false() {
    let mut grid = Grid::build();
    let mut ship = Ship::build(ShipType::AircraftCarrier);
    ship.origin = Some(GridPoint { x: 1, y: 1 });
    grid.add_ship(ship.get_type(), GridPoint { x: 1, y: 1 }, Orientation::Horizontal, ship.get_size());
    grid.remove_ship(ship.get_type(), GridPoint { x: 1, y: 1 }, Orientation::Horizontal, ship.get_size());
    let ship_removed =
        grid.remove_ship(ship.get_type(), GridPoint { x: 1, y: 1 }, Orientation::Horizontal, ship.get_size());
    assert_eq!(ShotStatus::Miss, ship_removed)
}

#[test]
fn add_mul_ships() {
    let mut grid = Grid::build();
    let mut ac = Ship::build(ShipType::AircraftCarrier);
    let mut bat = Ship::build(ShipType::Battleship);
    ac.origin = Some(GridPoint { x: 1, y: 1 });
    ac.orientation = Some(Orientation::Horizontal);
    bat.origin = Some(GridPoint { x: 1, y: 2 });
    bat.orientation = Some(Orientation::Horizontal);
    grid.add_ship(ac.get_type(), GridPoint { x: 1, y: 1 }, Orientation::Horizontal, ac.get_size());
    grid.add_ship(bat.get_type(), GridPoint { x: 1, y: 2 }, Orientation::Horizontal, bat.get_size());
    println!("{}", ac.get_debug_mode_string());
    println!("{}", bat.get_debug_mode_string());
    let hit_ship = grid.hit_ship(ac.origin.unwrap());
    assert_eq!(ShotStatus::Hit(ac.get_type(), ac.get_point()), hit_ship)
}

#[test]
fn shuffle_ship() {
    let mut grid = Grid::build();
    grid.shuffle_ship_location();
    println!("{}", grid.display_ships_location());
}

#[test]
fn blank_grid_is_empty() {
    let grid = Grid::build();
    for y in 1..=10 {
        for x in 1..=10 {
            assert_eq!(grid.get_ship(GridPoint { x, y }), None);
        }
    }
    assert!(grid.is_any_ship_left());
    assert!(grid.get_destroyed_ships().is_empty());
}

#[test]
fn placement_fills_exactly_the_footprint() {
    let mut grid = Grid::build();
    grid.add_ship(ShipType::Submarine, GridPoint { x: 4, y: 7 }, Orientation::Vertical, 3);
    assert_eq!(
        cells_of(&grid, ShipType::Submarine),
        vec![GridPoint { x: 4, y: 7 }, GridPoint { x: 4, y: 8 }, GridPoint { x: 4, y: 9 }]
    );
    grid.add_ship(ShipType::Destroyer, GridPoint { x: 9, y: 10 }, Orientation::Horizontal, 2);
    assert_eq!(
        cells_of(&grid, ShipType::Destroyer),
        vec![GridPoint { x: 9, y: 10 }, GridPoint { x: 10, y: 10 }]
    );
    assert_eq!(cells_of(&grid, ShipType::AircraftCarrier), vec![]);
}

#[test]
fn placement_rejects_footprints_past_the_edge() {
    let grid = Grid::build();
    assert!(grid.verify_allocation(GridPoint { x: 6, y: 1 }, Orientation::Horizontal, 5));
    assert!(!grid.verify_allocation(GridPoint { x: 7, y: 1 }, Orientation::Horizontal, 5));
    assert!(grid.verify_allocation(GridPoint { x: 1, y: 6 }, Orientation::Vertical, 5));
    assert!(!grid.verify_allocation(GridPoint { x: 1, y: 7 }, Orientation::Vertical, 5));
    assert!(grid.verify_allocation(GridPoint { x: 10, y: 10 }, Orientation::Horizontal, 1));
    assert!(grid.verify_allocation(GridPoint { x: 10, y: 10 }, Orientation::Vertical, 1));
    assert!(!grid.verify_allocation(GridPoint { x: 10, y: 10 }, Orientation::Horizontal, 2));
    assert!(!grid.verify_allocation(GridPoint { x: 10, y: 10 }, Orientation::Vertical, 2));
    for size in 1..=5 {
        for x in 1..=10 {
            for y in 1..=10 {
                let p = GridPoint { x, y };
                assert_eq!(grid.verify_allocation(p, Orientation::Horizontal, size), x + size - 1 <= 10);
                assert_eq!(grid.verify_allocation(p, Orientation::Vertical, size), y + size - 1 <= 10);
            }
        }
    }
}

#[test]
fn placement_rejects_points_off_the_board() {
    let grid = Grid::build();
    assert!(!grid.verify_allocation(GridPoint { x: 0, y: 1 }, Orientation::Horizontal, 1));
    assert!(!grid.verify_allocation(GridPoint { x: 1, y: 0 }, Orientation::Vertical, 1));
    assert!(!grid.verify_allocation(GridPoint { x: 11, y: 1 }, Orientation::Vertical, 1));
    assert!(!grid.verify_allocation(GridPoint { x: -3, y: 5 }, Orientation::Horizontal, 5));
    assert!(!grid.verify_allocation(GridPoint { x: 1, y: 1 }, Orientation::Horizontal, i32::MAX));
    assert!(!grid.verify_allocation(GridPoint { x: i32::MAX, y: i32::MAX }, Orientation::Vertical, 3));
}

#[test]
fn placement_rejects_occupied_cells() {
    let mut grid = Grid::build();
    grid.add_ship(ShipType::AircraftCarrier, GridPoint { x: 3, y: 3 }, Orientation::Horizontal, 5);
    assert!(!grid.verify_allocation(GridPoint { x: 5, y: 1 }, Orientation::Vertical, 4));
    assert!(!grid.verify_allocation(GridPoint { x: 1, y: 3 }, Orientation::Horizontal, 3));
    assert!(grid.verify_allocation(GridPoint { x: 1, y: 3 }, Orientation::Horizontal, 2));
    assert!(grid.verify_allocation(GridPoint { x: 8, y: 3 }, Orientation::Horizontal, 3));
    assert!(!grid.place_if_free(ShipType::Battleship, GridPoint { x: 7, y: 2 }, Orientation::Vertical));
    assert_eq!(cells_of(&grid, ShipType::Battleship), vec![]);
    assert!(grid.place_if_free(ShipType::Battleship, GridPoint { x: 8, y: 2 }, Orientation::Vertical));
    assert_eq!(cells_of(&grid, ShipType::Battleship).len(), 4);
    assert!(!grid.place_if_free(ShipType::Battleship, GridPoint { x: 1, y: 9 }, Orientation::Horizontal));
    assert_eq!(cells_of(&grid, ShipType::Battleship).len(), 4);
    assert_eq!(grid.get_ship(GridPoint { x: 1, y: 9 }), None);
}

#[test]
fn a_hit_anywhere_destroys_the_whole_ship() {
    let mut grid = Grid::build();
    grid.add_ship(ShipType::Battleship, GridPoint { x: 2, y: 5 }, Orientation::Horizontal, 4);
    grid.add_ship(ShipType::PatrolBoat, GridPoint { x: 6, y: 5 }, Orientation::Horizontal, 1);
    assert_eq!(grid.hit_ship(GridPoint { x: 4, y: 5 }), ShotStatus::Hit(ShipType::Battleship, 4));
    assert_eq!(cells_of(&grid, ShipType::Battleship), vec![]);
    assert_eq!(cells_of(&grid, ShipType::PatrolBoat), vec![GridPoint { x: 6, y: 5 }]);
    let wrecks = grid.get_destroyed_ships();
    assert_eq!(wrecks.len(), 1);
    assert_eq!(wrecks[0].get_type(), ShipType::Battleship);
    assert!(wrecks[0].is_destroyed());
    assert_eq!(wrecks[0].origin, Some(GridPoint { x: 2, y: 5 }));
    assert_eq!(wrecks[0].orientation, Some(Orientation::Horizontal));
    for x in 2..=5 {
        assert_eq!(grid.hit_ship(GridPoint { x, y: 5 }), ShotStatus::Miss);
    }
    assert!(grid.is_any_ship_left());
}

#[test]
fn remove_ship_needs_a_stretch_of_the_ship() {
    let mut grid = Grid::build();
    grid.add_ship(ShipType::Submarine, GridPoint { x: 2, y: 2 }, Orientation::Horizontal, 3);
    assert_eq!(
        grid.remove_ship(ShipType::Submarine, GridPoint { x: 3, y: 2 }, Orientation::Horizontal, 3),
        ShotStatus::Miss
    );
    assert_eq!(
        grid.remove_ship(ShipType::Destroyer, GridPoint { x: 2, y: 2 }, Orientation::Horizontal, 2),
        ShotStatus::Miss
    );
    assert_eq!(
        grid.remove_ship(ShipType::Submarine, GridPoint { x: 2, y: 2 }, Orientation::Horizontal, 0),
        ShotStatus::Miss
    );
    assert_eq!(
        grid.remove_ship(ShipType::Submarine, GridPoint { x: 9, y: 2 }, Orientation::Horizontal, 3),
        ShotStatus::Miss
    );
    assert_eq!(cells_of(&grid, ShipType::Submarine).len(), 3);
    assert!(grid.get_destroyed_ships().is_empty());
    assert_eq!(
        grid.remove_ship(ShipType::Submarine, GridPoint { x: 3, y: 2 }, Orientation::Horizontal, 2),
        ShotStatus::Hit(ShipType::Submarine, 6)
    );
    assert_eq!(cells_of(&grid, ShipType::Submarine), vec![]);
    assert_eq!(grid.get_destroyed_ships().len(), 1);
}

#[test]
fn allocation_places_the_whole_fleet_without_overlap() {
    for _ in 0..200 {
        let mut grid = Grid::build();
        grid.shuffle_ship_location();
        let mut occupied = 0;
        for kind in KINDS {
            let cells = cells_of(&grid, kind);
            assert_eq!(cells.len() as i32, kind.size());
            let first = cells[0];
            let horizontal = cells.iter().all(|c| c.y == first.y);
            let vertical = cells.iter().all(|c| c.x == first.x);
            assert!(horizontal || vertical);
            for (k, c) in cells.iter().enumerate() {
                if horizontal {
                    assert_eq!(c.x, first.x + k as i32);
                } else {
                    assert_eq!(c.y, first.y + k as i32);
                }
            }
            occupied += cells.len();
        }
        assert_eq!(occupied, 15);
        assert!(grid.get_destroyed_ships().is_empty());
    }
}

#[test]
fn allocation_keeps_ships_that_are_placed() {
    let mut grid = Grid::build();
    grid.add_ship(ShipType::AircraftCarrier, GridPoint { x: 1, y: 1 }, Orientation::Horizontal, 5);
    grid.shuffle_ship_location();
    assert_eq!(
        cells_of(&grid, ShipType::AircraftCarrier),
        vec![
            GridPoint { x: 1, y: 1 },
            GridPoint { x: 2, y: 1 },
            GridPoint { x: 3, y: 1 },
            GridPoint { x: 4, y: 1 },
            GridPoint { x: 5, y: 1 }
        ]
    );
    assert_eq!(cells_of(&grid, ShipType::Battleship).len(), 4);
    assert_eq!(cells_of(&grid, ShipType::PatrolBoat).len(), 1);
}

#[test]
fn allocation_varies_between_runs() {
    let mut first = Grid::build();
    first.shuffle_ship_location();
    let reference = first.display_ships_location();
    let mut differs = false;
    for _ in 0..50 {
        let mut grid = Grid::build();
        grid.shuffle_ship_location();
        if grid.display_ships_location() != reference {
            differs = true;
        }
    }
    assert!(differs);
}

#[test]
fn find_free_slot_takes_the_first_place_in_row_major_order() {
    let mut grid = Grid::build();
    assert_eq!(grid.find_free_slot(5), Some((GridPoint { x: 1, y: 1 }, Orientation::Horizontal)));
    grid.add_ship(ShipType::Destroyer, GridPoint { x: 2, y: 1 }, Orientation::Horizontal, 2);
    assert_eq!(grid.find_free_slot(5), Some((GridPoint { x: 1, y: 1 }, Orientation::Vertical)));
    assert_eq!(grid.find_free_slot(1), Some((GridPoint { x: 1, y: 1 }, Orientation::Horizontal)));
    assert_eq!(grid.find_free_slot(11), None);
}

#[test]
fn listing_of_a_grid() {
    let mut grid = Grid::build();
    assert_eq!(
        grid.display_ships_location(),
        "Aircraft Carrier   \nBattleship   \nSubmarine   \nDestroyer   \nPatrol Boat   \n"
    );
    grid.add_ship(ShipType::Destroyer, GridPoint { x: 9, y: 10 }, Orientation::Horizontal, 2);
    grid.add_ship(ShipType::Submarine, GridPoint { x: 3, y: 8 }, Orientation::Vertical, 3);
    assert_eq!(
        grid.display_ships_location(),
        "Aircraft Carrier   \nBattleship   \nSubmarine  (3,8) (3,9) (3,10)  \nDestroyer  (9,10) (10,10)  \nPatrol Boat   \n"
    );
}

#[test]
fn squares() {
    let mut square = Square::build(GridPoint { x: 1, y: 2 });
    assert!(!square.has_ship());
    assert_eq!(square.get_ship(), None);
    assert_eq!(square.get_ship_string(), "None");
    square.set_ship(ShipType::AircraftCarrier);
    assert!(square.has_ship());
    assert_eq!(square.get_ship(), Some(ShipType::AircraftCarrier));
    assert_eq!(square.get_ship_string(), "AircraftCarrier");
    square.set_ship(ShipType::PatrolBoat);
    assert_eq!(square.get_ship_string(), "PatrolBoat");
    square.set_gridpoint(GridPoint { x: 7, y: 9 });
    assert_eq!(square.origin, GridPoint { x: 7, y: 9 });
    assert_eq!(square.ship, Some(ShipType::PatrolBoat));
    assert_eq!(square.to_string(), "Square (origin = GridPoint(x = 7, y = 9), ship = PatrolBoat)");
    assert_eq!(
        Square::build(GridPoint { x: 10, y: 1 }).to_string(),
        "Square (origin = GridPoint(x = 10, y = 1), ship = None)"
    );
    assert_eq!(Square::default(), Square::build(GridPoint { x: 1, y: 1 }));
}

#[test]
fn build_from_layout_keeps_the_squares() {
    let mut layout = [Square::default(); 100];
    for (n, cell) in layout.iter_mut().enumerate() {
        cell.set_gridpoint(GridPoint::from_index(n));
    }
    let grid = Grid::build_from_layout(layout);
    assert_eq!(grid.get_ship(GridPoint { x: 5, y: 5 }), None);
    assert!(grid.verify_allocation(GridPoint { x: 1, y: 1 }, Orientation::Horizontal, 5));
    assert!(grid.get_destroyed_ships().is_empty());
}
