//! The board: a hundred squares, the fleet placed on them, collision-safe
//! placement and the resolution of a shot.

use vstd::prelude::*;
use vstd::string::StringExecFns;
use rand::rngs::ThreadRng;
use crate::chance::draw_inclusive;
use crate::inventory::ship::{footprint_fits, footprint_holds, fresh_fleet, Orientation, Ship, ShipType};
use crate::runtime::{GridPoint, ShotStatus};

verus! {

/// One cell of the board: its own position and the kind of the ship that
/// covers it, if any.
#[derive(Debug, Clone, Copy, PartialEq, Eq, Structural)]
pub struct Square {
    pub origin: GridPoint,
    pub ship: Option<ShipType>,
}

impl Square {
    /// An empty square at the given position.
    pub fn build(origin: GridPoint) -> (square: Square)
        ensures
            square == (Square { origin, ship: None }),
    {
        Square { origin, ship: None }
    }

    pub fn set_gridpoint(&mut self, origin: GridPoint)
        ensures
            *final(self) == (Square { origin, ship: old(self).ship }),
    {
        self.origin = origin;
    }

    pub fn get_ship(&self) -> (ship: Option<ShipType>)
        ensures
            ship == self.ship,
    {
        self.ship
    }

    pub fn set_ship(&mut self, ship: ShipType)
        ensures
            *final(self) == (Square { origin: old(self).origin, ship: Some(ship) }),
    {
        self.ship = Some(ship);
    }

    pub fn has_ship(&self) -> (b: bool)
        ensures
            b == (self.ship is Some),
    {
        self.ship.is_some()
    }

    /// The occupant as text: the kind's own name, or `None`.
    pub open spec fn ship_text(self) -> Seq<char> {
        match self.ship {
            Some(kind) => kind.spec_label(),
            None => "None"@,
        }
    }

    /// The square as text: its position and its occupant.
    pub open spec fn text(self) -> Seq<char> {
        "Square (origin = "@ + self.origin.text() + ", ship = "@ + self.ship_text() + ")"@
    }

    /// The square as text.
    pub fn to_string(&self) -> (out: String)
        ensures
            out@ == self.text(),
    {
        let mut out = String::from_str("Square (origin = ");
        let origin = self.origin.to_string();
        out.append(origin.as_str());
        out.append(", ship = ");
        let ship = self.get_ship_string();
        out.append(ship.as_str());
        out.append(")");
        assert(out@ =~= self.text());
        out
    }

    pub fn get_ship_string(&self) -> (text: String)
        ensures
            text@ == self.ship_text(),
    {
        match self.ship {
            Some(ship) => String::from_str(ship.label()),
            None => String::from_str("None"),
        }
    }
}

impl Default for Square {
    /// An empty square at the corner `(1, 1)`.
    fn default() -> (square: Square)
        ensures
            square == (Square { origin: GridPoint { x: 1, y: 1 }, ship: None }),
    {
        Square::build(GridPoint::default())
    }
}

/// Number of occupied squares among the first `n`.
pub open spec fn occupied(squares: Seq<Square>, n: int) -> int
    decreases n,
{
    if n <= 0 {
        0
    } else {
        occupied(squares, n - 1) + if squares[n - 1].ship is Some { 1int } else { 0int }
    }
}

/// Cells that a ship claims once it has been placed: its size, or nothing
/// while it is unplaced.
pub open spec fn claimed(ship: Ship) -> int {
    if ship.placed() {
        ship.ship_type.spec_size()
    } else {
        0
    }
}

/// Total number of cells claimed by the placed ships of a fleet of five.
pub open spec fn placed_cells(ships: Seq<Ship>) -> int {
    claimed(ships[0]) + claimed(ships[1]) + claimed(ships[2]) + claimed(ships[3]) + claimed(ships[4])
}

/// The squares after `mark` has been written into each of the `size` cells
/// from `origin` along `orientation`. The other squares are unchanged.
pub open spec fn stamped(
    squares: Seq<Square>,
    origin: GridPoint,
    orientation: Orientation,
    size: int,
    mark: Option<ShipType>,
) -> Seq<Square> {
    Seq::new(
        100,
        |i: int|
            if footprint_holds(origin, orientation, size, GridPoint::at_index(i)) {
                Square { origin: squares[i].origin, ship: mark }
            } else {
                squares[i]
            },
    )
}

/// The `k`-th cell of a footprint, counted from 0 at the origin.
pub open spec fn nth_cell(origin: GridPoint, orientation: Orientation, k: int) -> GridPoint {
    match orientation {
        Orientation::Horizontal => GridPoint { x: (origin.x + k) as i32, y: origin.y },
        Orientation::Vertical => GridPoint { x: origin.x, y: (origin.y + k) as i32 },
    }
}

/// The listing of the first `n` ships of a fleet: for each ship its line, a
/// space and a line break.
pub open spec fn fleet_text(ships: Seq<Ship>, n: int) -> Seq<char>
    decreases n,
{
    if n <= 0 {
        Seq::empty()
    } else {
        fleet_text(ships, n - 1) + ships[n - 1].debug_text() + " \n"@
    }
}

/// The board as a mathematical value: the hundred squares in row-major order
/// and the five ships in catalogue order.
pub struct GridView {
    pub squares: Seq<Square>,
    pub ships: Seq<Ship>,
}

impl GridView {
    /// Kind of the ship that covers the point, if any.
    pub open spec fn occupant(self, p: GridPoint) -> Option<ShipType> {
        self.squares[p.cell_index()].ship
    }

    /// The fleet's ship of the given kind.
    pub open spec fn ship(self, kind: ShipType) -> Ship {
        self.ships[kind.ordinal()]
    }

    /// A fleet entry is sound: it is of the kind its place calls for, origin
    /// and orientation are set together, only a placed ship is destroyed, and
    /// a placed ship lies on the board.
    pub open spec fn ship_ok(ship: Ship, j: int) -> bool {
        &&& ship.ship_type == ShipType::at(j)
        &&& (ship.origin is Some <==> ship.orientation is Some)
        &&& (ship.destroyed ==> ship.placed())
        &&& (ship.placed() ==> ship.origin->Some_0.valid() && footprint_fits(
            ship.origin->Some_0,
            ship.orientation->Some_0,
            ship.ship_type.spec_size(),
        ))
    }

    /// Square `i` holds `kind` exactly when the ship of that kind is afloat
    /// and its footprint holds the square.
    pub open spec fn cell_agrees(self, i: int, kind: ShipType) -> bool {
        self.squares[i].ship == Some(kind) <==> self.ship(kind).afloat() && self.ship(kind).covers(
            GridPoint::at_index(i),
        )
    }

    /// The board's invariant. Every square knows its own position; the fleet
    /// is sound; the squares record exactly the footprints of the ships that
    /// are afloat, so no two of those overlap and a destroyed ship covers
    /// nothing; and no more squares are occupied than placed ships claim.
    pub open spec fn wf(self) -> bool {
        &&& self.squares.len() == 100
        &&& self.ships.len() == 5
        &&& forall|i: int| 0 <= i < 100 ==> (#[trigger] self.squares[i]).origin == GridPoint::at_index(i)
        &&& forall|j: int| 0 <= j < 5 ==> Self::ship_ok(#[trigger] self.ships[j], j)
        &&& forall|i: int, kind: ShipType| 0 <= i < 100 ==> #[trigger] self.cell_agrees(i, kind)
        &&& occupied(self.squares, 100) <= placed_cells(self.ships)
    }

    /// Whether a ship of `size` cells may be placed at `origin`: its whole
    /// footprint lies on the board and none of its cells is occupied.
    pub open spec fn can_place(self, origin: GridPoint, orientation: Orientation, size: int) -> bool {
        &&& footprint_fits(origin, orientation, size)
        &&& forall|i: int|
            0 <= i < 100 && footprint_holds(origin, orientation, size, GridPoint::at_index(i))
                ==> (#[trigger] self.squares[i]).ship is None
    }

    /// The board after the ship of `kind` has been placed at `origin`: every
    /// cell of its footprint holds `kind`, and the ship records where it lies.
    pub open spec fn place(self, kind: ShipType, origin: GridPoint, orientation: Orientation) -> GridView {
        GridView {
            squares: stamped(self.squares, origin, orientation, kind.spec_size(), Some(kind)),
            ships: self.ships.update(
                kind.ordinal(),
                Ship { origin: Some(origin), orientation: Some(orientation), ..self.ship(kind) },
            ),
        }
    }

    /// The board after the ship of `kind` has been destroyed: every square
    /// that held it is vacated, and the ship is marked destroyed. It keeps
    /// its origin and orientation.
    pub open spec fn sink(self, kind: ShipType) -> GridView {
        GridView {
            squares: Seq::new(
                100,
                |i: int|
                    if self.squares[i].ship == Some(kind) {
                        Square { origin: self.squares[i].origin, ship: None }
                    } else {
                        self.squares[i]
                    },
            ),
            ships: self.ships.update(kind.ordinal(), Ship { destroyed: true, ..self.ship(kind) }),
        }
    }

    /// Whether the `size` cells from `origin` along `orientation` are a
    /// stretch of the ship of `kind`: there is at least one, all lie on the
    /// board, and each holds `kind`.
    pub open spec fn holds_stretch(self, kind: ShipType, origin: GridPoint, orientation: Orientation, size: int) -> bool {
        &&& size >= 1
        &&& footprint_fits(origin, orientation, size)
        &&& forall|i: int|
            0 <= i < 100 && footprint_holds(origin, orientation, size, GridPoint::at_index(i))
                ==> (#[trigger] self.squares[i]).ship == Some(kind)
    }

    /// Outcome of a shot at `p` and the board after it. A shot at an empty
    /// square misses and changes nothing; a shot at an occupied square
    /// destroys the ship that covers it.
    pub open spec fn resolve(self, p: GridPoint) -> (GridView, ShotStatus) {
        match self.occupant(p) {
            Some(kind) => (self.sink(kind), ShotStatus::Hit(kind, kind.spec_points() as i32)),
            None => (self, ShotStatus::Miss),
        }
    }

    /// Whether at least one ship of the fleet is not destroyed.
    pub open spec fn any_ship_left(self) -> bool {
        exists|j: int| 0 <= j < self.ships.len() && !(#[trigger] self.ships[j]).destroyed
    }

    /// Whether every ship of the fleet has been placed.
    pub open spec fn fully_placed(self) -> bool {
        forall|j: int| 0 <= j < 5 ==> (#[trigger] self.ships[j]).placed()
    }

    /// The empty board with an unplaced fleet.
    pub open spec fn blank() -> GridView {
        GridView {
            squares: Seq::new(100, |i: int| Square { origin: GridPoint::at_index(i), ship: None }),
            ships: fresh_fleet(),
        }
    }
}

/// Writing one square raises the number of occupied squares by at most one,
/// and vacating one does not raise it.
pub proof fn lemma_occupied_update(squares: Seq<Square>, i: int, v: Square, n: int)
    requires
        0 <= i < squares.len(),
        0 <= n <= squares.len(),
    ensures
        occupied(squares.update(i, v), n) <= occupied(squares, n) + 1,
        v.ship is None ==> occupied(squares.update(i, v), n) <= occupied(squares, n),
        i >= n ==> occupied(squares.update(i, v), n) == occupied(squares, n),
    decreases n,
{
    if n > 0 {
        lemma_occupied_update(squares, i, v, n - 1);
        if i != n - 1 {
            assert(squares.update(i, v)[n - 1] == squares[n - 1]);
        } else {
            assert(squares.update(i, v)[n - 1] == v);
        }
    }
}

/// An empty board has no occupied square.
pub proof fn lemma_occupied_none(squares: Seq<Square>, n: int)
    requires
        0 <= n <= squares.len(),
        forall|i: int| 0 <= i < n ==> (#[trigger] squares[i]).ship is None,
    ensures
        occupied(squares, n) == 0,
    decreases n,
{
    if n > 0 {
        lemma_occupied_none(squares, n - 1);
    }
}

/// The empty board with an unplaced fleet meets the board's invariant.
pub proof fn lemma_blank_wf()
    ensures
        GridView::blank().wf(),
{
    let v = GridView::blank();
    lemma_occupied_none(v.squares, 100);
    assert forall|i: int, kind: ShipType| 0 <= i < 100 implies #[trigger] v.cell_agrees(i, kind) by {
        assert(!v.ship(kind).placed());
    }
}

/// Vacating squares does not raise the number of occupied squares.
pub proof fn lemma_occupied_monotone(before: Seq<Square>, after: Seq<Square>, n: int)
    requires
        0 <= n <= before.len(),
        n <= after.len(),
        forall|i: int| 0 <= i < n && (#[trigger] after[i]).ship is Some ==> before[i].ship is Some,
    ensures
        occupied(after, n) <= occupied(before, n),
    decreases n,
{
    if n > 0 {
        lemma_occupied_monotone(before, after, n - 1);
    }
}

/// Stamping one more cell of a footprint is one write into the squares.
pub proof fn lemma_stamped_step(
    squares: Seq<Square>,
    origin: GridPoint,
    orientation: Orientation,
    k: int,
    mark: Option<ShipType>,
)
    requires
        squares.len() == 100,
        0 <= k,
        footprint_fits(origin, orientation, k + 1),
    ensures
        nth_cell(origin, orientation, k).valid(),
        footprint_holds(origin, orientation, k + 1, nth_cell(origin, orientation, k)),
        stamped(squares, origin, orientation, k + 1, mark) == stamped(squares, origin, orientation, k, mark).update(
            nth_cell(origin, orientation, k).cell_index(),
            Square { origin: squares[nth_cell(origin, orientation, k).cell_index()].origin, ship: mark },
        ),
{
    let cell = nth_cell(origin, orientation, k);
    let j = cell.cell_index();
    let wider = stamped(squares, origin, orientation, k + 1, mark);
    let narrow = stamped(squares, origin, orientation, k, mark).update(
        j,
        Square { origin: squares[j].origin, ship: mark },
    );
    assert(GridPoint::at_index(j) == cell);
    assert forall|i: int| 0 <= i < 100 implies wider[i] == narrow[i] by {
        let q = GridPoint::at_index(i);
        if i == j {
        } else {
            assert(q != cell);
            assert(footprint_holds(origin, orientation, k + 1, q) == footprint_holds(origin, orientation, k, q));
        }
    }
    assert(wider =~= narrow);
}

/// Stamping a footprint of `size` cells raises the number of occupied
/// squares by at most `size`.
pub proof fn lemma_stamped_count(
    squares: Seq<Square>,
    origin: GridPoint,
    orientation: Orientation,
    size: int,
    mark: Option<ShipType>,
)
    requires
        squares.len() == 100,
        0 <= size,
        footprint_fits(origin, orientation, size),
    ensures
        occupied(stamped(squares, origin, orientation, size, mark), 100) <= occupied(squares, 100) + size,
    decreases size,
{
    if size == 0 {
        assert(stamped(squares, origin, orientation, 0, mark) =~= squares);
    } else {
        lemma_stamped_count(squares, origin, orientation, size - 1, mark);
        lemma_stamped_step(squares, origin, orientation, size - 1, mark);
        let j = nth_cell(origin, orientation, size - 1).cell_index();
        lemma_occupied_update(
            stamped(squares, origin, orientation, size - 1, mark),
            j,
            Square { origin: squares[j].origin, ship: mark },
            100,
        );
    }
}

/// Placing an unplaced ship where it may be placed keeps the board's
/// invariant.
pub proof fn lemma_place_wf(v: GridView, kind: ShipType, origin: GridPoint, orientation: Orientation)
    requires
        v.wf(),
        !v.ship(kind).placed(),
        v.can_place(origin, orientation, kind.spec_size()),
    ensures
        v.place(kind, origin, orientation).wf(),
{
    let w = v.place(kind, origin, orientation);
    assert(GridView::ship_ok(v.ships[kind.ordinal()], kind.ordinal()));
    assert forall|j: int| 0 <= j < 5 implies GridView::ship_ok(#[trigger] w.ships[j], j) by {
        assert(GridView::ship_ok(v.ships[j], j));
    }
    assert forall|i: int, k: ShipType| 0 <= i < 100 implies #[trigger] w.cell_agrees(i, k) by {
        assert(v.cell_agrees(i, k));
        assert(v.cell_agrees(i, kind));
        assert(GridView::ship_ok(v.ships[k.ordinal()], k.ordinal()));
        if k != kind {
            assert(w.ship(k) == v.ship(k));
        }
    }
    lemma_stamped_count(v.squares, origin, orientation, kind.spec_size(), Some(kind));
    assert(claimed(w.ships[kind.ordinal()]) == kind.spec_size());
    assert(claimed(v.ships[kind.ordinal()]) == 0);
    assert forall|j: int| 0 <= j < 5 && j != kind.ordinal() implies claimed(w.ships[j]) == claimed(v.ships[j]) by {
    }
}

/// Destroying a ship that is afloat keeps the board's invariant.
pub proof fn lemma_sink_wf(v: GridView, kind: ShipType)
    requires
        v.wf(),
        v.ship(kind).afloat(),
    ensures
        v.sink(kind).wf(),
{
    let w = v.sink(kind);
    assert(GridView::ship_ok(v.ships[kind.ordinal()], kind.ordinal()));
    assert forall|j: int| 0 <= j < 5 implies GridView::ship_ok(#[trigger] w.ships[j], j) by {
        assert(GridView::ship_ok(v.ships[j], j));
    }
    assert forall|i: int, k: ShipType| 0 <= i < 100 implies #[trigger] w.cell_agrees(i, k) by {
        assert(v.cell_agrees(i, k));
        assert(v.cell_agrees(i, kind));
        assert(GridView::ship_ok(v.ships[k.ordinal()], k.ordinal()));
        if k != kind {
            assert(w.ship(k) == v.ship(k));
        }
    }
    lemma_occupied_monotone(v.squares, w.squares, 100);
    assert forall|j: int| 0 <= j < 5 implies claimed(w.ships[j]) == claimed(v.ships[j]) by {
    }
}

/// On a sound board, the squares that hold an afloat ship are exactly its
/// footprint: vacating the footprint is what destroying the ship does to the
/// squares.
pub proof fn lemma_sink_is_vacated_footprint(v: GridView, kind: ShipType)
    requires
        v.wf(),
        v.ship(kind).afloat(),
    ensures
        v.sink(kind).squares == stamped(
            v.squares,
            v.ship(kind).origin->Some_0,
            v.ship(kind).orientation->Some_0,
            kind.spec_size(),
            None,
        ),
{
    let ship = v.ship(kind);
    let cleared = stamped(v.squares, ship.origin->Some_0, ship.orientation->Some_0, kind.spec_size(), None);
    assert(GridView::ship_ok(v.ships[kind.ordinal()], kind.ordinal()));
    assert forall|i: int| 0 <= i < 100 implies v.sink(kind).squares[i] == cleared[i] by {
        assert(v.cell_agrees(i, kind));
    }
    assert(v.sink(kind).squares =~= cleared);
}

/// Whether one of the five squares `5 * c .. 5 * c + 5` is occupied. Each
/// such run is half a row of the board.
pub open spec fn run_has_ship(squares: Seq<Square>, c: int) -> bool {
    ||| squares[5 * c].ship is Some
    ||| squares[5 * c + 1].ship is Some
    ||| squares[5 * c + 2].ship is Some
    ||| squares[5 * c + 3].ship is Some
    ||| squares[5 * c + 4].ship is Some
}

/// If each of the first `c` half rows holds an occupied square, at least
/// `c` squares are occupied.
pub proof fn lemma_full_runs(squares: Seq<Square>, c: int)
    requires
        squares.len() == 100,
        0 <= c <= 20,
        forall|j: int| 0 <= j < c ==> #[trigger] run_has_ship(squares, j),
    ensures
        occupied(squares, 5 * c) >= c,
    decreases c,
{
    if c > 0 {
        lemma_full_runs(squares, c - 1);
        assert(run_has_ship(squares, c - 1));
        let base = 5 * (c - 1);
        assert(occupied(squares, base + 1) >= occupied(squares, base));
        assert(occupied(squares, base + 2) >= occupied(squares, base + 1));
        assert(occupied(squares, base + 3) >= occupied(squares, base + 2));
        assert(occupied(squares, base + 4) >= occupied(squares, base + 3));
        assert(occupied(squares, base + 5) >= occupied(squares, base + 4));
    }
}

/// A board with fewer than twenty occupied squares has room for a ship of
/// up to five cells: some half row is empty, and the ship fits into it
/// horizontally.
pub proof fn lemma_room_left(v: GridView, size: int)
    requires
        v.squares.len() == 100,
        occupied(v.squares, 100) < 20,
        1 <= size <= 5,
    ensures
        exists|i: int| 0 <= i < 100 && #[trigger] v.can_place(GridPoint::at_index(i), Orientation::Horizontal, size),
{
    if forall|j: int| 0 <= j < 20 ==> #[trigger] run_has_ship(v.squares, j) {
        lemma_full_runs(v.squares, 20);
        assert(false);
    }
    let c = choose|j: int| 0 <= j < 20 && !#[trigger] run_has_ship(v.squares, j);
    let origin = GridPoint::at_index(5 * c);
    assert(footprint_fits(origin, Orientation::Horizontal, size));
    assert forall|i: int|
        0 <= i < 100 && footprint_holds(
            origin,
            Orientation::Horizontal,
            size,
            GridPoint::at_index(i),
        ) implies (#[trigger] v.squares[i]).ship is None by {
        assert(5 * c <= i < 5 * c + 5);
    }
    assert(v.can_place(GridPoint::at_index(5 * c), Orientation::Horizontal, size));
}

/// On a sound board no two ships that are afloat cover the same point. The
/// squares that hold a ship afloat are exactly its footprint, every point of
/// a footprint lies on the board, and a destroyed ship holds no square.
pub proof fn afloat_ships_never_overlap(v: GridView, a: ShipType, b: ShipType, p: GridPoint)
    requires
        v.wf(),
        a != b,
        p.valid(),
    ensures
        !(v.ship(a).afloat() && v.ship(b).afloat() && v.ship(a).covers(p) && v.ship(b).covers(p)),
        v.ship(a).afloat() ==> (v.occupant(p) == Some(a) <==> v.ship(a).covers(p)),
        v.ship(a).destroyed ==> v.occupant(p) != Some(a),
{
    assert(GridPoint::at_index(p.cell_index()) == p);
    assert(v.cell_agrees(p.cell_index(), a));
    assert(v.cell_agrees(p.cell_index(), b));
}

/// The footprint of a placed ship of a sound board lies on the board: a
/// point that the ship covers has both coordinates in `1..=10`.
pub proof fn placed_ships_lie_on_the_board(v: GridView, kind: ShipType, p: GridPoint)
    requires
        v.wf(),
        v.ship(kind).covers(p),
    ensures
        p.valid(),
{
    assert(GridView::ship_ok(v.ships[kind.ordinal()], kind.ordinal()));
}

/// A footprint that reaches past `x = 10` or `y = 10`, or that starts off
/// the board, is refused whatever the board holds; on the empty board every
/// footprint that lies on the board is accepted.
pub proof fn placement_respects_the_edge(v: GridView, origin: GridPoint, orientation: Orientation, size: int)
    requires
        size >= 1,
    ensures
        orientation == Orientation::Horizontal && origin.x + size - 1 > 10 ==> !v.can_place(origin, orientation, size),
        orientation == Orientation::Vertical && origin.y + size - 1 > 10 ==> !v.can_place(origin, orientation, size),
        !origin.valid() ==> !v.can_place(origin, orientation, size),
        GridView::blank().can_place(origin, orientation, size) == footprint_fits(origin, orientation, size),
{
}

/// Number of random draws that placement makes for one ship before it takes
/// the first free place instead.
pub const PLACEMENT_DRAWS: u32 = 1000;

/// Points that the destroyed ships of a fleet of five are worth together.
pub open spec fn wreck_points(ships: Seq<Ship>) -> int {
    wreck_worth(ships[0]) + wreck_worth(ships[1]) + wreck_worth(ships[2]) + wreck_worth(ships[3]) + wreck_worth(
        ships[4],
    )
}

/// Points that a ship is worth once it is destroyed, nothing before.
pub open spec fn wreck_worth(ship: Ship) -> int {
    if ship.destroyed {
        ship.ship_type.spec_points()
    } else {
        0
    }
}

/// The destroyed ships of a sound fleet are worth at most thirty points, the
/// worth of the five kinds together.
pub proof fn lemma_wreck_points_bounded(v: GridView)
    requires
        v.wf(),
    ensures
        0 <= wreck_points(v.ships) <= 30,
{
    assert(GridView::ship_ok(v.ships[0], 0));
    assert(GridView::ship_ok(v.ships[1], 1));
    assert(GridView::ship_ok(v.ships[2], 2));
    assert(GridView::ship_ok(v.ships[3], 3));
    assert(GridView::ship_ok(v.ships[4], 4));
}

/// On a sound board an occupied square belongs to a ship that is afloat, and
/// destroying that ship adds its points to the worth of the wrecks.
pub proof fn lemma_hit_is_afloat(v: GridView, p: GridPoint, kind: ShipType)
    requires
        v.wf(),
        p.valid(),
        v.occupant(p) == Some(kind),
    ensures
        v.ship(kind).afloat(),
        v.ship(kind).covers(p),
        v.sink(kind).wf(),
        wreck_points(v.sink(kind).ships) == wreck_points(v.ships) + kind.spec_points(),
{
    assert(GridPoint::at_index(p.cell_index()) == p);
    assert(v.cell_agrees(p.cell_index(), kind));
    lemma_sink_wf(v, kind);
    assert(GridView::ship_ok(v.ships[kind.ordinal()], kind.ordinal()));
    let w = v.sink(kind);
    assert forall|j: int| 0 <= j < 5 && j != kind.ordinal() implies wreck_worth(w.ships[j]) == wreck_worth(
        v.ships[j],
    ) by {
    }
    assert(wreck_worth(w.ships[kind.ordinal()]) == kind.spec_points());
    assert(wreck_worth(v.ships[kind.ordinal()]) == 0);
}

/// The board: a hundred squares in row-major order and the fleet of five.
#[derive(Debug)]
pub struct Grid {
    layout: [Square; 100],
    ships: Vec<Ship>,
}

impl View for Grid {
    type V = GridView;

    closed spec fn view(&self) -> GridView {
        GridView { squares: self.layout@, ships: self.ships@ }
    }
}

impl Clone for Grid {
    fn clone(&self) -> (copy: Grid)
        ensures
            copy@ == self@,
    {
        let mut ships: Vec<Ship> = Vec::new();
        let total: usize = self.ships.len();
        let mut j: usize = 0;
        while j < total
            invariant
                j <= total,
                total == self.ships@.len(),
                ships@ == self.ships@.take(j as int),
            decreases total - j,
        {
            ships.push(self.ships[j]);
            assert(ships@ =~= self.ships@.take(j + 1));
            j += 1;
        }
        assert(ships@ =~= self.ships@);
        Grid { layout: self.layout, ships }
    }
}

impl Grid {
    /// Whether the board meets its invariant.
    pub open spec fn wf(&self) -> bool {
        self@.wf()
    }

    /// An empty board with an unplaced fleet.
    pub fn build() -> (grid: Grid)
        ensures
            grid@ == GridView::blank(),
            grid.wf(),
    {
        Self::initialize_layout()
    }

    /// A board with the given squares and an unplaced fleet. The result
    /// meets the board's invariant only if the squares are those of the
    /// empty board.
    pub fn build_from_layout(layout: [Square; 100]) -> (grid: Grid)
        ensures
            grid@ == (GridView { squares: layout@, ships: fresh_fleet() }),
    {
        Grid { layout, ships: Ship::create_ships() }
    }

    fn initialize_layout() -> (grid: Grid)
        ensures
            grid@ == GridView::blank(),
            grid.wf(),
    {
        let mut layout: [Square; 100] = [Square::default(); 100];
        let mut n: usize = 0;
        while n < 100
            invariant
                n <= 100,
                forall|i: int| 0 <= i < n ==> (#[trigger] layout@[i]) == (Square { origin: GridPoint::at_index(i), ship: None }),
            decreases 100 - n,
        {
            let mut cell: Square = layout[n];
            cell.set_gridpoint(GridPoint::from_index(n));
            cell.ship = None;
            layout[n] = cell;
            n += 1;
        }
        proof {
            assert(layout@ =~= GridView::blank().squares);
            lemma_blank_wf();
        }
        Self::build_from_layout(layout)
    }

    fn get_square(&self, grid_point: GridPoint) -> (square: &Square)
        requires
            grid_point.valid(),
        ensures
            *square == self@.squares[grid_point.cell_index()],
    {
        &self.layout[grid_point.to_index()]
    }

    fn set_square(&mut self, square: Square)
        requires
            square.origin.valid(),
        ensures
            final(self)@.squares == old(self)@.squares.update(square.origin.cell_index(), square),
            final(self)@.ships == old(self)@.ships,
    {
        let n: usize = square.origin.to_index();
        self.layout[n] = square;
    }

    /// Whether each of the `size` cells from `grid_point` along
    /// `orientation` lies on the board and holds exactly `want`.
    fn stretch_is(&self, grid_point: GridPoint, orientation: Orientation, size: i32, want: Option<ShipType>) -> (ok: bool)
        ensures
            ok == (footprint_fits(grid_point, orientation, size as int) && forall|i: int|
                0 <= i < 100 && footprint_holds(grid_point, orientation, size as int, GridPoint::at_index(i))
                    ==> (#[trigger] self@.squares[i]).ship == want),
    {
        if size <= 0 {
            return true;
        }
        if !grid_point.is_valid() || size > 10 {
            return false;
        }
        let start: i32 = match orientation {
            Orientation::Horizontal => grid_point.x,
            Orientation::Vertical => grid_point.y,
        };
        if start + size - 1 > 10 {
            return false;
        }
        let mut length: i32 = 0;
        while length < size
            invariant
                0 <= length <= size,
                footprint_fits(grid_point, orientation, size as int),
                grid_point.valid(),
                forall|i: int|
                    0 <= i < 100 && footprint_holds(grid_point, orientation, length as int, GridPoint::at_index(i))
                        ==> (#[trigger] self@.squares[i]).ship == want,
            decreases size - length,
        {
            proof {
                lemma_stamped_step(self@.squares, grid_point, orientation, length as int, want);
            }
            let cell = cell_along(grid_point, orientation, length);
            let square = self.get_square(cell);
            if !same_occupant(square.ship, want) {
                proof {
                    assert(GridPoint::at_index(cell.cell_index()) == cell);
                    assert(footprint_holds(grid_point, orientation, size as int, cell));
                }
                return false;
            }
            proof {
                assert forall|i: int|
                    0 <= i < 100 && footprint_holds(
                        grid_point,
                        orientation,
                        length + 1,
                        GridPoint::at_index(i),
                    ) implies (#[trigger] self@.squares[i]).ship == want by {
                    if !footprint_holds(grid_point, orientation, length as int, GridPoint::at_index(i)) {
                        assert(GridPoint::at_index(i) == cell);
                    }
                }
            }
            length += 1;
        }
        true
    }

    /// Tells whether a ship of `size` cells may be placed at `grid_point`:
    /// false if any of its cells falls off the board or is occupied, true
    /// otherwise. The board is only read.
    pub fn verify_allocation(&self, grid_point: GridPoint, orientation: Orientation, size: i32) -> (ok: bool)
        ensures
            ok == self@.can_place(grid_point, orientation, size as int),
    {
        self.stretch_is(grid_point, orientation, size, None)
    }

    /// Places the ship of `ship_type` at `grid_point`: writes its kind into
    /// each cell of its footprint and records origin and orientation on the
    /// ship. Nothing is validated here; the caller has confirmed with
    /// [`Grid::verify_allocation`] that the ship may be placed.
    pub fn add_ship(&mut self, ship_type: ShipType, grid_point: GridPoint, orientation: Orientation, size: i32) -> (ok: bool)
        requires
            old(self).wf(),
            size == ship_type.spec_size(),
            !old(self)@.ship(ship_type).placed(),
            old(self)@.can_place(grid_point, orientation, size as int),
        ensures
            ok,
            final(self)@ == old(self)@.place(ship_type, grid_point, orientation),
            final(self).wf(),
    {
        let ghost before = self@;
        let mut length: i32 = 0;
        while length < size
            invariant
                0 <= length <= size,
                before.wf(),
                footprint_fits(grid_point, orientation, size as int),
                self@.ships == before.ships,
                self@.squares == stamped(before.squares, grid_point, orientation, length as int, Some(ship_type)),
            decreases size - length,
        {
            proof {
                lemma_stamped_step(before.squares, grid_point, orientation, length as int, Some(ship_type));
            }
            let cell = cell_along(grid_point, orientation, length);
            self.set_square(Square { origin: cell, ship: Some(ship_type) });
            length += 1;
        }
        let j: usize = ship_type.index();
        let mut ship: Ship = self.ships[j];
        ship.origin = Some(grid_point);
        ship.orientation = Some(orientation);
        self.ships.set(j, ship);
        proof {
            lemma_place_wf(before, ship_type, grid_point, orientation);
            assert(self@.ships =~= before.place(ship_type, grid_point, orientation).ships);
        }
        true
    }

    /// Places the ship of `ship_type` at `grid_point` if the ship is not
    /// placed yet and may be placed there, and tells whether it did. A
    /// refused placement leaves the board as it was.
    pub fn place_if_free(&mut self, ship_type: ShipType, grid_point: GridPoint, orientation: Orientation) -> (placed: bool)
        requires
            old(self).wf(),
        ensures
            placed == (!old(self)@.ship(ship_type).placed() && old(self)@.can_place(
                grid_point,
                orientation,
                ship_type.spec_size(),
            )),
            placed ==> final(self)@ == old(self)@.place(ship_type, grid_point, orientation),
            !placed ==> final(self)@ == old(self)@,
            final(self).wf(),
    {
        let size: i32 = ship_type.size();
        let ship: Ship = self.ships[ship_type.index()];
        if ship.origin.is_some() && ship.orientation.is_some() {
            return false;
        }
        if self.verify_allocation(grid_point, orientation, size) {
            self.add_ship(ship_type, grid_point, orientation, size)
        } else {
            false
        }
    }

    /// Destroys the ship of `ship_type` if the `size` cells from
    /// `grid_point` along `orientation` are a stretch of it: all of the
    /// ship's squares are vacated and the ship is marked destroyed, both or
    /// neither. Otherwise the board is left as it was and the result is a
    /// miss.
    pub fn remove_ship(&mut self, ship_type: ShipType, grid_point: GridPoint, orientation: Orientation, size: i32) -> (status: ShotStatus)
        requires
            old(self).wf(),
        ensures
            old(self)@.holds_stretch(ship_type, grid_point, orientation, size as int) ==> status
                == ShotStatus::Hit(ship_type, ship_type.spec_points() as i32) && final(self)@ == old(self)@.sink(
                ship_type,
            ),
            !old(self)@.holds_stretch(ship_type, grid_point, orientation, size as int) ==> status
                == ShotStatus::Miss && final(self)@ == old(self)@,
            final(self).wf(),
    {
        if size < 1 || !self.stretch_is(grid_point, orientation, size, Some(ship_type)) {
            return ShotStatus::Miss;
        }
        let ghost before = self@;
        let j: usize = ship_type.index();
        let mut ship: Ship = self.ships[j];
        proof {
            lemma_stamped_step(before.squares, grid_point, orientation, 0, None);
            assert(GridPoint::at_index(grid_point.cell_index()) == grid_point);
            assert(before.cell_agrees(grid_point.cell_index(), ship_type));
            assert(GridView::ship_ok(before.ships[j as int], j as int));
            lemma_sink_is_vacated_footprint(before, ship_type);
            lemma_sink_wf(before, ship_type);
        }
        let origin = ship.origin.unwrap();
        let heading = ship.orientation.unwrap();
        let span: i32 = ship.get_size();
        let mut length: i32 = 0;
        while length < span
            invariant
                0 <= length <= span,
                before.wf(),
                footprint_fits(origin, heading, span as int),
                self@.ships == before.ships,
                self@.squares == stamped(before.squares, origin, heading, length as int, None),
            decreases span - length,
        {
            proof {
                lemma_stamped_step(before.squares, origin, heading, length as int, None);
            }
            let cell = cell_along(origin, heading, length);
            self.set_square(Square { origin: cell, ship: None });
            length += 1;
        }
        ship.destroy();
        self.ships.set(j, ship);
        proof {
            assert(self@.ships =~= before.sink(ship_type).ships);
        }
        ShotStatus::Hit(ship_type, ship.get_point())
    }

    /// Resolves a shot at `grid_point`. A shot at an empty square misses and
    /// changes nothing. A shot at an occupied square destroys the ship that
    /// covers it: all of its squares are vacated, it is marked destroyed,
    /// and the hit reports its kind and its points.
    pub fn hit_ship(&mut self, grid_point: GridPoint) -> (status: ShotStatus)
        requires
            old(self).wf(),
            grid_point.valid(),
        ensures
            (final(self)@, status) == old(self)@.resolve(grid_point),
            final(self).wf(),
    {
        let square: Square = *self.get_square(grid_point);
        match square.ship {
            Some(ship_type) => {
                let ship: Ship = self.ships[ship_type.index()];
                proof {
                    let v = self@;
                    assert(v.cell_agrees(grid_point.cell_index(), ship_type));
                    assert(GridView::ship_ok(v.ships[ship_type.ordinal()], ship_type.ordinal()));
                    assert forall|i: int|
                        0 <= i < 100 && footprint_holds(
                            ship.origin->Some_0,
                            ship.orientation->Some_0,
                            ship_type.spec_size(),
                            GridPoint::at_index(i),
                        ) implies (#[trigger] v.squares[i]).ship == Some(ship_type) by {
                        assert(v.cell_agrees(i, ship_type));
                    }
                }
                self.remove_ship(ship_type, ship.origin.unwrap(), ship.orientation.unwrap(), ship.get_size())
            },
            None => ShotStatus::Miss,
        }
    }

    /// Kind of the ship that covers the point, if any.
    pub fn get_ship(&self, grid_point: GridPoint) -> (occupant: Option<ShipType>)
        requires
            grid_point.valid(),
        ensures
            occupant == self@.occupant(grid_point),
    {
        let square = self.get_square(grid_point);
        square.get_ship()
    }

    /// A listing of the fleet in catalogue order, one ship to a line: its
    /// name and the cells it was placed on.
    pub fn display_ships_location(&self) -> (display: String)
        ensures
            display@ == fleet_text(self@.ships, self@.ships.len() as int),
    {
        let mut display = String::new();
        let total: usize = self.ships.len();
        let mut j: usize = 0;
        while j < total
            invariant
                j <= total,
                total == self@.ships.len(),
                display@ == fleet_text(self@.ships, j as int),
            decreases total - j,
        {
            let line = self.ships[j].get_debug_mode_string();
            display.append(line.as_str());
            display.append(" \n");
            j += 1;
        }
        display
    }

    /// Tells whether at least one ship of the fleet is not destroyed.
    pub fn is_any_ship_left(&self) -> (left: bool)
        ensures
            left == self@.any_ship_left(),
    {
        let total: usize = self.ships.len();
        let mut j: usize = 0;
        while j < total
            invariant
                j <= total,
                total == self@.ships.len(),
                forall|k: int| 0 <= k < j ==> (#[trigger] self@.ships[k]).destroyed,
            decreases total - j,
        {
            if !self.ships[j].is_destroyed() {
                return true;
            }
            j += 1;
        }
        false
    }

    /// The destroyed ships of the fleet, in catalogue order.
    pub fn get_destroyed_ships(&self) -> (wrecks: Vec<Ship>)
        ensures
            wrecks@ == self@.ships.filter(|ship: Ship| ship.destroyed),
    {
        let mut wrecks: Vec<Ship> = Vec::new();
        let total: usize = self.ships.len();
        let mut j: usize = 0;
        while j < total
            invariant
                j <= total,
                total == self@.ships.len(),
                wrecks@ == self@.ships.take(j as int).filter(|ship: Ship| ship.destroyed),
            decreases total - j,
        {
            let ship: Ship = self.ships[j];
            proof {
                assert(self@.ships.take(j + 1).drop_last() == self@.ships.take(j as int));
                reveal(Seq::filter);
            }
            if ship.is_destroyed() {
                wrecks.push(ship);
            }
            j += 1;
        }
        proof {
            assert(self@.ships.take(total as int) == self@.ships);
        }
        wrecks
    }

    /// The first place, in row-major order and horizontal before vertical,
    /// at which a ship of `size` cells may be placed, if there is one.
    pub fn find_free_slot(&self, size: i32) -> (slot: Option<(GridPoint, Orientation)>)
        ensures
            match slot {
                Some((origin, orientation)) => {
                    &&& origin.valid()
                    &&& self@.can_place(origin, orientation, size as int)
                    &&& forall|i: int, earlier: Orientation|
                        0 <= i < origin.cell_index() ==> !#[trigger] self@.can_place(
                            GridPoint::at_index(i),
                            earlier,
                            size as int,
                        )
                    &&& (orientation == Orientation::Vertical ==> !self@.can_place(
                        origin,
                        Orientation::Horizontal,
                        size as int,
                    ))
                },
                None => forall|i: int, orientation: Orientation|
                    0 <= i < 100 ==> !#[trigger] self@.can_place(GridPoint::at_index(i), orientation, size as int),
            },
    {
        let mut n: usize = 0;
        while n < 100
            invariant
                n <= 100,
                forall|i: int, orientation: Orientation|
                    0 <= i < n ==> !#[trigger] self@.can_place(GridPoint::at_index(i), orientation, size as int),
            decreases 100 - n,
        {
            let origin = GridPoint::from_index(n);
            if self.verify_allocation(origin, Orientation::Horizontal, size) {
                return Some((origin, Orientation::Horizontal));
            }
            if self.verify_allocation(origin, Orientation::Vertical, size) {
                return Some((origin, Orientation::Vertical));
            }
            n += 1;
        }
        None
    }

    /// Places the unplaced ship of `ship_type` at a random free place:
    /// origin and orientation are drawn until the ship may be placed. After
    /// [`PLACEMENT_DRAWS`] refused draws the first free place in row-major
    /// order is taken instead, so the search always ends.
    fn place_at_random(&mut self, ship_type: ShipType, rng: &mut ThreadRng)
        requires
            old(self).wf(),
            !old(self)@.ship(ship_type).placed(),
        ensures
            final(self).wf(),
            exists|origin: GridPoint, orientation: Orientation|
                origin.valid() && old(self)@.can_place(origin, orientation, ship_type.spec_size())
                    && final(self)@ == #[trigger] old(self)@.place(ship_type, origin, orientation),
    {
        let size: i32 = ship_type.size();
        let mut draws: u32 = 0;
        while draws < PLACEMENT_DRAWS
            invariant
                self@ == old(self)@,
                self.wf(),
                !self@.ship(ship_type).placed(),
                size == ship_type.spec_size(),
            decreases PLACEMENT_DRAWS - draws,
        {
            let x_axis: i32 = draw_inclusive(rng, 1, 10);
            let y_axis: i32 = draw_inclusive(rng, 1, 10);
            let orientation = Orientation::from_draw(draw_inclusive(rng, 0, 1));
            let origin = GridPoint { x: x_axis, y: y_axis };
            if self.place_if_free(ship_type, origin, orientation) {
                return;
            }
            draws += 1;
        }
        let slot = self.find_free_slot(size);
        proof {
            let v = self@;
            assert(GridView::ship_ok(v.ships[0], 0));
            assert(GridView::ship_ok(v.ships[1], 1));
            assert(GridView::ship_ok(v.ships[2], 2));
            assert(GridView::ship_ok(v.ships[3], 3));
            assert(GridView::ship_ok(v.ships[4], 4));
            assert(claimed(v.ships[ship_type.ordinal()]) == 0);
            assert(placed_cells(v.ships) <= 15 - size);
            lemma_room_left(v, size as int);
        }
        match slot {
            Some((origin, orientation)) => {
                self.add_ship(ship_type, origin, orientation, size);
            },
            None => {
                assert(false);
            },
        }
    }

    /// Places every ship of the fleet that is not yet placed, each at a
    /// random place where it overlaps nothing. Ships that were placed before
    /// stay where they are.
    pub fn shuffle_ship_location(&mut self)
        requires
            old(self).wf(),
        ensures
            final(self).wf(),
            final(self)@.fully_placed(),
            forall|j: int|
                0 <= j < 5 ==> (#[trigger] final(self)@.ships[j]).destroyed == old(self)@.ships[j].destroyed,
            forall|j: int| 0 <= j < 5 && old(self)@.ships[j].placed() ==> #[trigger] final(self)@.ships[j] == old(self)@.ships[j],
            forall|i: int|
                0 <= i < 100 && old(self)@.squares[i].ship is Some ==> #[trigger] final(self)@.squares[i] == old(self)@.squares[i],
    {
        let mut rng = rand::thread_rng();
        let mut j: usize = 0;
        while j < 5
            invariant
                j <= 5,
                self.wf(),
                forall|k: int| 0 <= k < j ==> (#[trigger] self@.ships[k]).placed(),
                forall|k: int| 0 <= k < 5 ==> (#[trigger] self@.ships[k]).destroyed == old(self)@.ships[k].destroyed,
                forall|k: int| 0 <= k < 5 && old(self)@.ships[k].placed() ==> #[trigger] self@.ships[k] == old(self)@.ships[k],
                forall|i: int|
                    0 <= i < 100 && old(self)@.squares[i].ship is Some ==> #[trigger] self@.squares[i] == old(self)@.squares[i],
            decreases 5 - j,
        {
            let ship_type = ShipType::from_index(j);
            let ship: Ship = self.ships[j];
            if ship.origin.is_none() || ship.orientation.is_none() {
                self.place_at_random(ship_type, &mut rng);
            }
            j += 1;
        }
    }
}

/// Whether two occupants are the same.
fn same_occupant(a: Option<ShipType>, b: Option<ShipType>) -> (same: bool)
    ensures
        same == (a == b),
{
    match (a, b) {
        (Some(s), Some(t)) => s == t,
        (None, None) => true,
        _ => false,
    }
}

/// The `k`-th cell of a footprint that lies on the board.
fn cell_along(origin: GridPoint, orientation: Orientation, k: i32) -> (cell: GridPoint)
    requires
        0 <= k,
        footprint_fits(origin, orientation, k + 1),
    ensures
        cell == nth_cell(origin, orientation, k as int),
        cell.valid(),
{
    match orientation {
        Orientation::Horizontal => GridPoint { x: origin.x + k, y: origin.y },
        Orientation::Vertical => GridPoint { x: origin.x, y: origin.y + k },
    }
}

} // verus!
