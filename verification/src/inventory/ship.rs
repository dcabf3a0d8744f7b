//! The ship catalogue: the five kinds of ship, their sizes and their worth.

use vstd::prelude::*;
use vstd::string::StringExecFns;
use crate::runtime::GridPoint;
use crate::text::{append_decimal, decimal_text};

verus! {

/// The direction in which a ship extends from its origin: towards larger `x`
/// or towards larger `y`.
#[derive(Debug, Clone, Copy, PartialEq, Eq, Hash, Structural)]
pub enum Orientation {
    Horizontal,
    Vertical,
}

impl Orientation {
    /// The orientation that a draw from `0..=1` stands for: `1` is vertical,
    /// anything else horizontal.
    pub open spec fn of_draw(n: int) -> Orientation {
        if n == 1 {
            Orientation::Vertical
        } else {
            Orientation::Horizontal
        }
    }

    /// The orientation's own name.
    pub open spec fn spec_label(self) -> Seq<char> {
        match self {
            Orientation::Horizontal => "Horizontal"@,
            Orientation::Vertical => "Vertical"@,
        }
    }

    /// The orientation's own name.
    pub fn label(self) -> (s: &'static str)
        ensures
            s@ == self.spec_label(),
    {
        match self {
            Orientation::Horizontal => "Horizontal",
            Orientation::Vertical => "Vertical",
        }
    }

    /// Turns a drawn number into an orientation.
    pub fn from_draw(n: i32) -> (o: Orientation)
        ensures
            o == Orientation::of_draw(n as int),
    {
        match n {
            0 => Orientation::Horizontal,
            1 => Orientation::Vertical,
            _ => Orientation::Horizontal,
        }
    }
}

/// The five kinds of ship. A fleet holds exactly one ship of each kind.
#[derive(Debug, Clone, Copy, PartialEq, Eq, Hash, Structural)]
pub enum ShipType {
    AircraftCarrier,
    Battleship,
    Submarine,
    Destroyer,
    PatrolBoat,
}

impl ShipType {
    /// Number of cells that a ship of this kind covers.
    pub open spec fn spec_size(self) -> int {
        match self {
            ShipType::AircraftCarrier => 5,
            ShipType::Battleship => 4,
            ShipType::Submarine => 3,
            ShipType::Destroyer => 2,
            ShipType::PatrolBoat => 1,
        }
    }

    /// Points awarded for destroying a ship of this kind: the smaller the
    /// ship, the more it is worth.
    pub open spec fn spec_points(self) -> int {
        match self {
            ShipType::AircraftCarrier => 2,
            ShipType::Battleship => 4,
            ShipType::Submarine => 6,
            ShipType::Destroyer => 8,
            ShipType::PatrolBoat => 10,
        }
    }

    /// Display name of the kind.
    pub open spec fn spec_name(self) -> Seq<char> {
        match self {
            ShipType::AircraftCarrier => "Aircraft Carrier"@,
            ShipType::Battleship => "Battleship"@,
            ShipType::Submarine => "Submarine"@,
            ShipType::Destroyer => "Destroyer"@,
            ShipType::PatrolBoat => "Patrol Boat"@,
        }
    }

    /// The kind's own name, as one word.
    pub open spec fn spec_label(self) -> Seq<char> {
        match self {
            ShipType::AircraftCarrier => "AircraftCarrier"@,
            ShipType::Battleship => "Battleship"@,
            ShipType::Submarine => "Submarine"@,
            ShipType::Destroyer => "Destroyer"@,
            ShipType::PatrolBoat => "PatrolBoat"@,
        }
    }

    /// Place of the kind in a fleet, in `0..5`.
    pub open spec fn ordinal(self) -> int {
        match self {
            ShipType::AircraftCarrier => 0,
            ShipType::Battleship => 1,
            ShipType::Submarine => 2,
            ShipType::Destroyer => 3,
            ShipType::PatrolBoat => 4,
        }
    }

    /// The kind at place `j` of a fleet; inverse of [`ShipType::ordinal`].
    pub open spec fn at(j: int) -> ShipType {
        if j == 0 {
            ShipType::AircraftCarrier
        } else if j == 1 {
            ShipType::Battleship
        } else if j == 2 {
            ShipType::Submarine
        } else if j == 3 {
            ShipType::Destroyer
        } else {
            ShipType::PatrolBoat
        }
    }

    /// Place of the kind in a fleet.
    pub fn index(self) -> (j: usize)
        ensures
            j == self.ordinal(),
            j < 5,
            ShipType::at(j as int) == self,
    {
        match self {
            ShipType::AircraftCarrier => 0,
            ShipType::Battleship => 1,
            ShipType::Submarine => 2,
            ShipType::Destroyer => 3,
            ShipType::PatrolBoat => 4,
        }
    }

    /// The kind at place `j` of a fleet.
    pub fn from_index(j: usize) -> (kind: ShipType)
        requires
            j < 5,
        ensures
            kind == ShipType::at(j as int),
            kind.ordinal() == j,
    {
        if j == 0 {
            ShipType::AircraftCarrier
        } else if j == 1 {
            ShipType::Battleship
        } else if j == 2 {
            ShipType::Submarine
        } else if j == 3 {
            ShipType::Destroyer
        } else {
            ShipType::PatrolBoat
        }
    }

    /// Number of cells that a ship of this kind covers.
    pub fn size(self) -> (n: i32)
        ensures
            n == self.spec_size(),
            1 <= n <= 5,
    {
        match self {
            ShipType::AircraftCarrier => 5,
            ShipType::Battleship => 4,
            ShipType::Submarine => 3,
            ShipType::Destroyer => 2,
            ShipType::PatrolBoat => 1,
        }
    }

    /// Points awarded for destroying a ship of this kind.
    pub fn points(self) -> (n: i32)
        ensures
            n == self.spec_points(),
            2 <= n <= 10,
    {
        match self {
            ShipType::AircraftCarrier => 2,
            ShipType::Battleship => 4,
            ShipType::Submarine => 6,
            ShipType::Destroyer => 8,
            ShipType::PatrolBoat => 10,
        }
    }

    /// The kind's own name, as one word.
    pub fn label(self) -> (s: &'static str)
        ensures
            s@ == self.spec_label(),
    {
        match self {
            ShipType::AircraftCarrier => "AircraftCarrier",
            ShipType::Battleship => "Battleship",
            ShipType::Submarine => "Submarine",
            ShipType::Destroyer => "Destroyer",
            ShipType::PatrolBoat => "PatrolBoat",
        }
    }

    /// Display name of the kind.
    pub fn name(self) -> (s: &'static str)
        ensures
            s@ == self.spec_name(),
    {
        match self {
            ShipType::AircraftCarrier => "Aircraft Carrier",
            ShipType::Battleship => "Battleship",
            ShipType::Submarine => "Submarine",
            ShipType::Destroyer => "Destroyer",
            ShipType::PatrolBoat => "Patrol Boat",
        }
    }
}

/// One ship of a fleet. Its size, worth and name follow from its kind; its
/// origin and orientation are unset until it is placed, and it keeps them
/// after it is destroyed.
#[derive(Debug, Clone, Copy, PartialEq, Eq, Hash, Structural)]
pub struct Ship {
    pub origin: Option<GridPoint>,
    pub orientation: Option<Orientation>,
    pub ship_type: ShipType,
    pub destroyed: bool,
}

impl Ship {
    /// Whether the ship has an origin and an orientation.
    pub open spec fn placed(self) -> bool {
        self.origin is Some && self.orientation is Some
    }

    /// Whether the ship is placed and still afloat.
    pub open spec fn afloat(self) -> bool {
        self.placed() && !self.destroyed
    }

    /// Orientation of the ship, horizontal while it is unset.
    pub open spec fn heading(self) -> Orientation {
        match self.orientation {
            Some(o) => o,
            None => Orientation::Horizontal,
        }
    }

    /// `x` of the origin, 0 while it is unset.
    pub open spec fn origin_x(self) -> int {
        match self.origin {
            Some(p) => p.x as int,
            None => 0,
        }
    }

    /// `y` of the origin, 0 while it is unset.
    pub open spec fn origin_y(self) -> int {
        match self.origin {
            Some(p) => p.y as int,
            None => 0,
        }
    }

    /// Whether the ship's footprint holds the point: the `size` contiguous
    /// cells that start at the origin and extend along the orientation.
    pub open spec fn covers(self, p: GridPoint) -> bool {
        self.placed() && footprint_holds(
            self.origin->Some_0,
            self.orientation->Some_0,
            self.ship_type.spec_size(),
            p,
        )
    }

    /// The first `n` cells of the ship as text, for a ship that extends
    /// towards larger `x`.
    pub open spec fn horizontal_text(self, n: int) -> Seq<char>
        decreases n,
    {
        if n <= 0 {
            Seq::empty()
        } else {
            self.horizontal_text(n - 1) + cell_text(self.origin_x() + n - 1, self.origin_y())
        }
    }

    /// The first `n` cells of the ship as text, for a ship that extends
    /// towards larger `y`.
    pub open spec fn vertical_text(self, n: int) -> Seq<char>
        decreases n,
    {
        if n <= 0 {
            Seq::empty()
        } else {
            self.vertical_text(n - 1) + cell_text(self.origin_x(), self.origin_y() + n - 1)
        }
    }

    /// The ship's line of a listing: its name, two spaces, and its cells in
    /// order from the origin. A ship without an orientation lists no cells.
    pub open spec fn debug_text(self) -> Seq<char> {
        self.ship_type.spec_name() + "  "@ + match self.orientation {
            Some(Orientation::Horizontal) => self.horizontal_text(self.ship_type.spec_size()),
            Some(Orientation::Vertical) => self.vertical_text(self.ship_type.spec_size()),
            None => Seq::empty(),
        }
    }

    /// A placed ship as text: its name, origin, orientation, size and
    /// points.
    pub open spec fn text(self) -> Seq<char> {
        "Ship(name = "@ + self.ship_type.spec_name() + ", starting point = "@ + self.origin->Some_0.text()
            + ", orientation = "@ + self.orientation->Some_0.spec_label() + ", size = "@ + decimal_text(
            self.ship_type.spec_size(),
        ) + ", points = "@ + decimal_text(self.ship_type.spec_points()) + ")"@
    }

    /// A new, unplaced ship of the given kind.
    pub fn build(ship_type: ShipType) -> (ship: Ship)
        ensures
            ship == (Ship { origin: None, orientation: None, ship_type, destroyed: false }),
    {
        Ship { origin: None, orientation: None, ship_type, destroyed: false }
    }

    pub fn get_point(&self) -> (n: i32)
        ensures
            n == self.ship_type.spec_points(),
    {
        self.ship_type.points()
    }

    pub fn is_destroyed(&self) -> (b: bool)
        ensures
            b == self.destroyed,
    {
        self.destroyed
    }

    pub fn destroy(&mut self)
        ensures
            *final(self) == (Ship { destroyed: true, ..*old(self) }),
    {
        self.destroyed = true;
    }

    /// Orientation of the ship, horizontal while it is unset.
    pub fn get_orientation(&self) -> (o: &Orientation)
        ensures
            *o == self.heading(),
    {
        match &self.orientation {
            Some(direction) => direction,
            None => &Orientation::Horizontal,
        }
    }

    /// `x` of the origin, 0 while it is unset.
    pub fn get_origin_x(&self) -> (x: i32)
        ensures
            x == self.origin_x(),
    {
        match self.origin {
            Some(grid) => grid.x,
            None => 0,
        }
    }

    /// `y` of the origin, 0 while it is unset.
    pub fn get_origin_y(&self) -> (y: i32)
        ensures
            y == self.origin_y(),
    {
        match self.origin {
            Some(grid) => grid.y,
            None => 0,
        }
    }

    pub fn get_size(&self) -> (n: i32)
        ensures
            n == self.ship_type.spec_size(),
            1 <= n <= 5,
    {
        self.ship_type.size()
    }

    pub fn get_name(&self) -> (s: &str)
        ensures
            s@ == self.ship_type.spec_name(),
    {
        self.ship_type.name()
    }

    pub fn get_type(&self) -> (kind: ShipType)
        ensures
            kind == self.ship_type,
    {
        self.ship_type
    }

    /// A placed ship as text.
    pub fn to_string(&self) -> (out: String)
        requires
            self.placed(),
        ensures
            out@ == self.text(),
    {
        let mut out = String::from_str("Ship(name = ");
        out.append(self.get_name());
        out.append(", starting point = ");
        let origin = self.origin.unwrap().to_string();
        out.append(origin.as_str());
        out.append(", orientation = ");
        out.append(self.orientation.unwrap().label());
        out.append(", size = ");
        append_decimal(&mut out, self.get_size() as i64);
        out.append(", points = ");
        append_decimal(&mut out, self.get_point() as i64);
        out.append(")");
        assert(out@ =~= self.text());
        out
    }

    /// The ship's line of a listing: its name and the cells it covers.
    pub fn get_debug_mode_string(&self) -> (output: String)
        ensures
            output@ == self.debug_text(),
    {
        let mut output = String::from_str(self.get_name());
        output.append("  ");
        match self.orientation {
            Some(o) => match o {
                Orientation::Horizontal => {
                    let cells = self.get_horizontal_dms();
                    output.append(cells.as_str());
                },
                Orientation::Vertical => {
                    let cells = self.get_vertical_dms();
                    output.append(cells.as_str());
                },
            },
            None => (),
        }
        assert(output@ =~= self.debug_text());
        output
    }

    fn get_horizontal_dms(&self) -> (output: String)
        ensures
            output@ == self.horizontal_text(self.ship_type.spec_size()),
    {
        let mut output = String::new();
        let size: i32 = self.get_size();
        let mut x: i32 = 0;
        while x < size
            invariant
                0 <= x <= size <= 5,
                output@ == self.horizontal_text(x as int),
            decreases size - x,
        {
            let column: i64 = self.get_origin_x() as i64 + x as i64;
            let row: i64 = self.get_origin_y() as i64;
            append_cell(&mut output, column, row);
            x += 1;
        }
        output
    }

    fn get_vertical_dms(&self) -> (output: String)
        ensures
            output@ == self.vertical_text(self.ship_type.spec_size()),
    {
        let mut output = String::new();
        let size: i32 = self.get_size();
        let mut y: i32 = 0;
        while y < size
            invariant
                0 <= y <= size <= 5,
                output@ == self.vertical_text(y as int),
            decreases size - y,
        {
            let column: i64 = self.get_origin_x() as i64;
            let row: i64 = self.get_origin_y() as i64 + y as i64;
            append_cell(&mut output, column, row);
            y += 1;
        }
        output
    }

    /// A fresh fleet: one unplaced ship of each kind, in catalogue order.
    pub fn create_ships() -> (fleet: Vec<Ship>)
        ensures
            fleet@ == fresh_fleet(),
    {
        let mut ship_yard: Vec<Ship> = Vec::new();
        ship_yard.push(Ship::build(ShipType::AircraftCarrier));
        ship_yard.push(Ship::build(ShipType::Battleship));
        ship_yard.push(Ship::build(ShipType::Submarine));
        ship_yard.push(Ship::build(ShipType::Destroyer));
        ship_yard.push(Ship::build(ShipType::PatrolBoat));
        assert(ship_yard@ =~= fresh_fleet());
        ship_yard
    }
}

/// A cell as text: `(x,y)` and a space.
pub open spec fn cell_text(x: int, y: int) -> Seq<char> {
    "("@ + decimal_text(x) + ","@ + decimal_text(y) + ") "@
}

fn append_cell(out: &mut String, x: i64, y: i64)
    ensures
        final(out)@ == old(out)@ + cell_text(x as int, y as int),
{
    out.append("(");
    append_decimal(out, x);
    out.append(",");
    append_decimal(out, y);
    out.append(") ");
    assert(out@ =~= old(out)@ + cell_text(x as int, y as int));
}

/// Whether `p` is one of the `size` contiguous cells that start at `origin`
/// and extend towards larger `x` (horizontal) or larger `y` (vertical).
pub open spec fn footprint_holds(origin: GridPoint, orientation: Orientation, size: int, p: GridPoint) -> bool {
    match orientation {
        Orientation::Horizontal => p.y == origin.y && origin.x <= p.x < origin.x + size,
        Orientation::Vertical => p.x == origin.x && origin.y <= p.y < origin.y + size,
    }
}

/// Whether all of the `size` cells of a footprint lie on the board. An empty
/// footprint does.
pub open spec fn footprint_fits(origin: GridPoint, orientation: Orientation, size: int) -> bool {
    size <= 0 || (origin.valid() && match orientation {
        Orientation::Horizontal => origin.x + size - 1 <= 10,
        Orientation::Vertical => origin.y + size - 1 <= 10,
    })
}

/// The fleet before placement: five unplaced ships, one of each kind.
pub open spec fn fresh_fleet() -> Seq<Ship> {
    Seq::new(
        5,
        |j: int| Ship { origin: None, orientation: None, ship_type: ShipType::at(j), destroyed: false },
    )
}

} // verus!
