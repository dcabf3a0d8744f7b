//! Coordinates, shot outcomes and the session that a player shoots through.

use vstd::prelude::*;
use vstd::string::StringExecFns;
use vstd::set_lib::{lemma_int_range, lemma_len_subset, set_int_range};
use crate::inventory::grid::{
    fleet_text,
    lemma_hit_is_afloat,
    lemma_wreck_points_bounded,
    wreck_points,
    Grid,
    GridView,
};
use crate::inventory::ship::{Ship, ShipType};
use crate::text::{append_decimal, decimal_text};

verus! {

/// Lowest coordinate of the board on either axis.
pub const GRID_MIN: i32 = 1;

/// Highest coordinate of the board on either axis.
pub const GRID_MAX: i32 = 10;

/// A position on the board. Both coordinates of a valid position lie in
/// `1..=10`.
#[derive(Debug, Clone, Copy, PartialEq, Eq, Hash, Structural)]
pub struct GridPoint {
    pub x: i32,
    pub y: i32,
}

impl GridPoint {
    /// Whether the point lies on the board.
    pub open spec fn valid(self) -> bool {
        1 <= self.x <= 10 && 1 <= self.y <= 10
    }

    /// Position of the point in row-major storage: `(y - 1) * 10 + (x - 1)`.
    pub open spec fn cell_index(self) -> int {
        (self.y - 1) * 10 + (self.x - 1)
    }

    /// The point stored at position `i`; inverse of [`GridPoint::cell_index`]
    /// on `0..100`.
    pub open spec fn at_index(i: int) -> GridPoint {
        GridPoint { x: (i % 10 + 1) as i32, y: (i / 10 + 1) as i32 }
    }

    /// The point as text: `GridPoint(x = 3, y = 4)`.
    pub open spec fn text(self) -> Seq<char> {
        "GridPoint(x = "@ + decimal_text(self.x as int) + ", y = "@ + decimal_text(self.y as int) + ")"@
    }

    /// The point as text.
    pub fn to_string(&self) -> (out: String)
        ensures
            out@ == self.text(),
    {
        let mut out = String::from_str("GridPoint(x = ");
        append_decimal(&mut out, self.x as i64);
        out.append(", y = ");
        append_decimal(&mut out, self.y as i64);
        out.append(")");
        assert(out@ =~= self.text());
        out
    }

    pub fn new(x: i32, y: i32) -> (p: GridPoint)
        ensures
            p.x == x,
            p.y == y,
    {
        GridPoint { x, y }
    }

    /// Tells whether the point lies on the board.
    pub fn is_valid(&self) -> (ok: bool)
        ensures
            ok == self.valid(),
    {
        GRID_MIN <= self.x && self.x <= GRID_MAX && GRID_MIN <= self.y && self.y <= GRID_MAX
    }

    /// Storage position of a point of the board.
    pub fn to_index(&self) -> (i: usize)
        requires
            self.valid(),
        ensures
            i == self.cell_index(),
            i < 100,
    {
        let row: i32 = self.y - 1;
        let column: i32 = self.x - 1;
        (row * 10 + column) as usize
    }

    /// The point of the board stored at position `i`.
    pub fn from_index(i: usize) -> (p: GridPoint)
        requires
            i < 100,
        ensures
            p == GridPoint::at_index(i as int),
            p.valid(),
            p.cell_index() == i,
    {
        GridPoint { x: (i % 10) as i32 + 1, y: (i / 10) as i32 + 1 }
    }
}

impl Default for GridPoint {
    /// The corner of the board, `(1, 1)`.
    fn default() -> (p: GridPoint)
        ensures
            p == (GridPoint { x: 1, y: 1 }),
    {
        GridPoint { x: 1, y: 1 }
    }
}

/// Outcome of a shot: a hit names the kind of the ship destroyed and the
/// points awarded for it; a repeat is a shot at a point fired at before.
#[derive(Debug, Clone, Copy, PartialEq, Eq, Hash, Structural)]
pub enum ShotStatus {
    Hit(ShipType, i32),
    Miss,
    Repeat,
}

/// What a shot reports back: its outcome and, for a hit, the kind of the
/// ship destroyed and the points awarded.
#[derive(Debug, Clone, Copy, PartialEq, Eq, Hash, Structural)]
pub struct Shot {
    pub status: ShotStatus,
    pub ship_type: Option<ShipType>,
    pub point: Option<i32>,
}

/// A point that does not lie on the board was handed to the engine.
#[derive(Debug, Clone, Copy, PartialEq, Eq, Hash, Structural)]
pub struct InvalidCoordinate {
    pub point: GridPoint,
}

/// Number of shots that a session starts with.
pub const SHOT_BUDGET: i32 = 10;

/// A session as a mathematical value.
pub struct SessionView {
    pub debug: bool,
    /// The points fired at so far, oldest first.
    pub history: Seq<GridPoint>,
    pub points: int,
    pub remaining: int,
    pub player: Seq<char>,
    pub grid: GridView,
}

impl SessionView {
    /// The session's invariant: the board is sound; the history holds points
    /// of the board, none twice; each recorded shot has cost one of the ten
    /// shots; and the score is not negative and no more than the destroyed
    /// ships are worth.
    pub open spec fn wf(self) -> bool {
        &&& self.grid.wf()
        &&& self.history.no_duplicates()
        &&& forall|k: int| 0 <= k < self.history.len() ==> (#[trigger] self.history[k]).valid()
        &&& self.remaining == 10 - self.history.len()
        &&& 0 <= self.points <= wreck_points(self.grid.ships)
    }

    /// A session before the first shot.
    pub open spec fn fresh(player: Seq<char>, grid: GridView) -> SessionView {
        SessionView { debug: false, history: Seq::empty(), points: 0, remaining: 10, player, grid }
    }

    /// The session after a shot at `p`, and what the shot reports. A shot at
    /// a point fired at before is a repeat and changes nothing. Any other
    /// shot costs one of the remaining shots and is recorded, hit or miss; a
    /// hit destroys the ship and adds its points to the score.
    pub open spec fn shoot(self, p: GridPoint) -> (SessionView, Shot) {
        if self.history.contains(p) {
            (self, Shot { status: ShotStatus::Repeat, ship_type: None, point: None })
        } else {
            let (grid, status) = self.grid.resolve(p);
            let fired = SessionView {
                history: self.history.push(p),
                remaining: self.remaining - 1,
                grid,
                ..self
            };
            match status {
                ShotStatus::Hit(kind, worth) => (
                    SessionView { points: self.points + worth, ..fired },
                    Shot { status, ship_type: Some(kind), point: Some(worth) },
                ),
                _ => (fired, Shot { status: ShotStatus::Miss, ship_type: None, point: None }),
            }
        }
    }
}

/// A history of distinct points of the board holds at most a hundred.
pub proof fn lemma_history_bounded(history: Seq<GridPoint>)
    requires
        history.no_duplicates(),
        forall|k: int| 0 <= k < history.len() ==> (#[trigger] history[k]).valid(),
    ensures
        history.len() <= 100,
{
    let cells = Seq::new(history.len(), |k: int| history[k].cell_index());
    assert forall|i: int, j: int| 0 <= i < cells.len() && 0 <= j < cells.len() && i != j implies cells[i]
        != cells[j] by {
        assert(history[i].valid() && history[j].valid());
        assert(history[i] != history[j]);
    }
    cells.unique_seq_to_set();
    lemma_int_range(0, 100);
    assert forall|a: int| cells.to_set().contains(a) implies set_int_range(0, 100).contains(a) by {
        let k = choose|k: int| 0 <= k < cells.len() && cells[k] == a;
        assert(history[k].valid());
    }
    lemma_len_subset(cells.to_set(), set_int_range(0, 100));
}

/// A shot at a point of the board keeps the session's invariant, never
/// raises the remaining shots and never lowers the score.
pub proof fn lemma_shoot_wf(s: SessionView, p: GridPoint)
    requires
        s.wf(),
        p.valid(),
    ensures
        s.shoot(p).0.wf(),
        s.shoot(p).0.remaining <= s.remaining,
        s.shoot(p).0.points >= s.points,
{
    if !s.history.contains(p) {
        let after = s.shoot(p).0;
        assert forall|i: int, j: int|
            0 <= i < after.history.len() && 0 <= j < after.history.len() && i != j implies after.history[i]
            != after.history[j] by {
            if i < s.history.len() {
                assert(s.history.contains(s.history[i]));
            }
            if j < s.history.len() {
                assert(s.history.contains(s.history[j]));
            }
        }
        match s.grid.occupant(p) {
            Some(kind) => {
                lemma_hit_is_afloat(s.grid, p, kind);
            },
            None => {},
        }
    }
}

/// Firing twice at a point not fired at before: the first shot is a hit or a
/// miss, the second is a repeat that changes nothing, and the two together
/// cost exactly one shot.
pub proof fn repeat_costs_nothing(s: SessionView, p: GridPoint)
    requires
        s.wf(),
        p.valid(),
        !s.history.contains(p),
    ensures
        s.shoot(p).1.status != ShotStatus::Repeat,
        s.shoot(p).0.shoot(p).1 == (Shot { status: ShotStatus::Repeat, ship_type: None, point: None }),
        s.shoot(p).0.shoot(p).0 == s.shoot(p).0,
        s.shoot(p).0.shoot(p).0.remaining == s.remaining - 1,
{
    let once = s.shoot(p).0;
    assert(once.history == s.history.push(p));
    assert(once.history[s.history.len() as int] == p);
    assert(once.history.contains(p));
}

/// A point is recorded at most once: after any shot the history holds the
/// point fired at, and holds no point twice.
pub proof fn history_records_each_point_once(s: SessionView, p: GridPoint)
    requires
        s.wf(),
        p.valid(),
    ensures
        s.shoot(p).0.history.contains(p),
        s.shoot(p).0.history.no_duplicates(),
        s.history.contains(p) ==> s.shoot(p).0.history == s.history,
        !s.history.contains(p) ==> s.shoot(p).0.history == s.history.push(p),
{
    lemma_shoot_wf(s, p);
    if !s.history.contains(p) {
        let once = s.shoot(p).0;
        assert(once.history[s.history.len() as int] == p);
    }
}

/// A shot at a square that a destroyed ship once covered misses: the board,
/// not the history, decides what is hit, and the squares of a destroyed ship
/// are empty.
pub proof fn wreck_is_open_water(s: SessionView, first: GridPoint, second: GridPoint, kind: ShipType)
    requires
        s.wf(),
        first.valid(),
        second.valid(),
        first != second,
        !s.history.contains(first),
        !s.history.contains(second),
        s.grid.occupant(first) == Some(kind),
        s.grid.occupant(second) == Some(kind),
    ensures
        s.shoot(first).1.status == ShotStatus::Hit(kind, kind.spec_points() as i32),
        s.shoot(first).0.shoot(second).1.status == ShotStatus::Miss,
{
    let once = s.shoot(first).0;
    assert(GridPoint::at_index(second.cell_index()) == second);
    assert forall|i: int| 0 <= i < once.history.len() implies once.history[i] != second by {
        if i < s.history.len() {
            assert(s.history.contains(s.history[i]));
        }
    }
}

/// One player's game: the board with its fleet, the shots fired, the score
/// and the shots that remain.
#[derive(Debug)]
pub struct Session {
    pub debug: bool,
    shot_history: Vec<GridPoint>,
    points: i32,
    remaining_shots: i32,
    player_name: String,
    grid: Grid,
}

impl View for Session {
    type V = SessionView;

    closed spec fn view(&self) -> SessionView {
        SessionView {
            debug: self.debug,
            history: self.shot_history@,
            points: self.points as int,
            remaining: self.remaining_shots as int,
            player: self.player_name@,
            grid: self.grid@,
        }
    }
}

impl Clone for Session {
    fn clone(&self) -> (copy: Session)
        ensures
            copy@ == self@,
    {
        let mut shot_history: Vec<GridPoint> = Vec::new();
        let total: usize = self.shot_history.len();
        let mut k: usize = 0;
        while k < total
            invariant
                k <= total,
                total == self.shot_history@.len(),
                shot_history@ == self.shot_history@.take(k as int),
            decreases total - k,
        {
            shot_history.push(self.shot_history[k]);
            assert(shot_history@ =~= self.shot_history@.take(k + 1));
            k += 1;
        }
        assert(shot_history@ =~= self.shot_history@);
        Session {
            debug: self.debug,
            shot_history,
            points: self.points,
            remaining_shots: self.remaining_shots,
            player_name: self.player_name.clone(),
            grid: self.grid.clone(),
        }
    }
}

impl Session {
    /// Whether the session meets its invariant.
    pub open spec fn wf(&self) -> bool {
        self@.wf()
    }

    /// A session without a player, on an empty board with an unplaced fleet.
    pub fn build() -> (session: Session)
        ensures
            session@ == SessionView::fresh(Seq::empty(), GridView::blank()),
            session.wf(),
    {
        Session {
            points: 0,
            shot_history: Vec::new(),
            remaining_shots: SHOT_BUDGET,
            player_name: String::new(),
            grid: Grid::build(),
            debug: false,
        }
    }

    /// A session for `player_name` on the given board, before the first
    /// shot. It is sound if the board is.
    pub fn build_from_allocation(player_name: String, grid: Grid) -> (session: Session)
        ensures
            session@ == SessionView::fresh(player_name@, grid@),
            grid.wf() ==> session.wf(),
    {
        proof {
            if grid.wf() {
                lemma_wreck_points_bounded(grid@);
            }
        }
        Session { points: 0, shot_history: Vec::new(), remaining_shots: SHOT_BUDGET, player_name, grid, debug: false }
    }

    /// A session for `player_name` that is ready for play: the whole fleet
    /// is placed at random on a fresh board, no ship overlapping another.
    pub fn start(player_name: String) -> (session: Session)
        ensures
            session.wf(),
            session@.player == player_name@,
            session@.history == Seq::<GridPoint>::empty(),
            session@.points == 0,
            session@.remaining == 10,
            !session@.debug,
            session@.grid.fully_placed(),
            forall|j: int| 0 <= j < 5 ==> !(#[trigger] session@.grid.ships[j]).destroyed,
    {
        let mut grid = Grid::build();
        grid.shuffle_ship_location();
        Self::build_from_allocation(player_name, grid)
    }

    pub fn get_player_name(&self) -> (name: String)
        ensures
            name@ == self@.player,
    {
        self.player_name.clone()
    }

    /// A listing of the fleet, one ship to a line.
    pub fn display_ships_location(&self) -> (display: String)
        ensures
            display@ == fleet_text(self@.grid.ships, self@.grid.ships.len() as int),
    {
        self.grid.display_ships_location()
    }

    /// Tells whether at least one ship of the fleet is not destroyed.
    pub fn is_any_ship_left(&self) -> (left: bool)
        ensures
            left == self@.grid.any_ship_left(),
    {
        self.grid.is_any_ship_left()
    }

    /// Tells whether a shot remains.
    pub fn is_shot_available(&self) -> (available: bool)
        ensures
            available == (self@.remaining > 0),
    {
        self.remaining_shots > 0
    }

    pub fn get_remaining_shots(&self) -> (n: i32)
        ensures
            n == self@.remaining,
    {
        self.remaining_shots
    }

    /// The destroyed ships of the fleet, in catalogue order.
    pub fn get_destroyed_ships(&self) -> (wrecks: Vec<Ship>)
        ensures
            wrecks@ == self@.grid.ships.filter(|ship: Ship| ship.destroyed),
    {
        self.grid.get_destroyed_ships()
    }

    pub fn get_points(&self) -> (n: i32)
        ensures
            n == self@.points,
    {
        self.points
    }

    /// The points fired at so far, oldest first.
    pub fn get_shot_history(&self) -> (history: &Vec<GridPoint>)
        ensures
            history@ == self@.history,
    {
        &self.shot_history
    }

    /// Fires at `proj_loc`, a point of the board. A point fired at before
    /// gives a repeat and changes nothing. Otherwise the shot costs one of
    /// the remaining shots and is recorded, and the board resolves it: a hit
    /// destroys the ship and adds its points to the score.
    pub fn shoot_ship(&mut self, proj_loc: GridPoint) -> (shot: Shot)
        requires
            old(self).wf(),
            proj_loc.valid(),
        ensures
            (final(self)@, shot) == old(self)@.shoot(proj_loc),
            final(self).wf(),
            final(self)@.history.contains(proj_loc),
            final(self)@.remaining <= old(self)@.remaining,
            final(self)@.points >= old(self)@.points,
    {
        proof {
            lemma_shoot_wf(self@, proj_loc);
            history_records_each_point_once(self@, proj_loc);
            lemma_history_bounded(self@.history);
            lemma_wreck_points_bounded(self@.grid);
        }
        let total: usize = self.shot_history.len();
        let mut k: usize = 0;
        while k < total
            invariant
                k <= total,
                total == self.shot_history@.len(),
                self@ == old(self)@,
                self.wf(),
                forall|i: int| 0 <= i < k ==> (#[trigger] self.shot_history@[i]) != proj_loc,
            decreases total - k,
        {
            let grid: GridPoint = self.shot_history[k];
            if grid.x == proj_loc.x && grid.y == proj_loc.y {
                return Shot { status: ShotStatus::Repeat, ship_type: None, point: None };
            }
            k += 1;
        }
        self.remaining_shots -= 1;
        self.shot_history.push(proj_loc);
        match self.grid.hit_ship(proj_loc) {
            ShotStatus::Hit(ship_type, point) => {
                proof {
                    lemma_hit_is_afloat(old(self)@.grid, proj_loc, ship_type);
                }
                self.points += point;
                Shot { status: ShotStatus::Hit(ship_type, point), ship_type: Some(ship_type), point: Some(point) }
            },
            _ => Shot { status: ShotStatus::Miss, ship_type: None, point: None },
        }
    }

    /// Fires at `proj_loc` if it lies on the board, as
    /// [`Session::shoot_ship`] does, and refuses any other point without
    /// touching the session.
    pub fn try_shoot_ship(&mut self, proj_loc: GridPoint) -> (outcome: Result<Shot, InvalidCoordinate>)
        requires
            old(self).wf(),
        ensures
            final(self).wf(),
            proj_loc.valid() ==> outcome is Ok && (final(self)@, outcome->Ok_0) == old(self)@.shoot(proj_loc),
            !proj_loc.valid() ==> outcome == Err::<Shot, InvalidCoordinate>(InvalidCoordinate { point: proj_loc })
                && final(self)@ == old(self)@,
    {
        if proj_loc.is_valid() {
            Ok(self.shoot_ship(proj_loc))
        } else {
            Err(InvalidCoordinate { point: proj_loc })
        }
    }
}

/// A game in progress: the session that the player shoots through.
#[derive(Debug)]
pub struct Play {
    session: Session,
}

impl View for Play {
    type V = SessionView;

    closed spec fn view(&self) -> SessionView {
        self.session@
    }
}

impl Clone for Play {
    fn clone(&self) -> (copy: Play)
        ensures
            copy@ == self@,
    {
        Play { session: self.session.clone() }
    }
}

impl Play {
    /// Whether the session of the game meets its invariant.
    pub open spec fn wf(&self) -> bool {
        self@.wf()
    }

    /// A new game for `player_name`, its fleet placed and ready for play.
    pub fn init(player_name: String) -> (play: Play)
        ensures
            play.wf(),
            play@.player == player_name@,
            play@.history == Seq::<GridPoint>::empty(),
            play@.points == 0,
            play@.remaining == 10,
            play@.grid.fully_placed(),
            forall|j: int| 0 <= j < 5 ==> !(#[trigger] play@.grid.ships[j]).destroyed,
    {
        Play { session: Session::start(player_name) }
    }

    pub fn get_session_as_mut(&mut self) -> (session: &mut Session)
        ensures
            session@ == old(self)@,
            final(self)@ == final(session)@,
    {
        &mut self.session
    }

    pub fn get_session_as_ref(&self) -> (session: &Session)
        ensures
            session@ == self@,
    {
        &self.session
    }
}

/// The storage position and the coordinates determine each other: on the
/// board, `cell_index` and `at_index` are inverse bijections between the
/// hundred points and `0..100`.
pub proof fn law_index_bijection(p: GridPoint, i: int)
    ensures
        p.valid() ==> 0 <= p.cell_index() < 100 && GridPoint::at_index(p.cell_index()) == p,
        0 <= i < 100 ==> GridPoint::at_index(i).valid() && GridPoint::at_index(i).cell_index() == i,
{
}

} // verus!
