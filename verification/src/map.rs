//! The demo map: a 96×96 grass field split into four quadrants by rivers, with
//! a start point in each corner and a boss lake in the center.
//!
//! Cells are `(x, y)` with `x` right and `y` down. Start points are indexed
//! `[top-left, bottom-right, bottom-left, top-right]`, so the first two slots
//! sit on opposite corners (a natural 1v1). The rivers run along the middle
//! axes from each edge to the lake, each broken by a three-cell ford: the gaps
//! that make each quadrant border a chokepoint. Each corner also has a gold
//! mine and a small tree grove, neutral placements; the lake's fortress and
//! ships belong to the boss slot.
use vstd::prelude::*;
use crate::text::{owned, str_eq};

verus! {

/// The demo map's name: the session and replays reference it by this.
pub const NAME: &'static str = "demo";

/// The demo's ground navigation layer, by content name.
pub const GROUND: &'static str = "ground";

/// The demo's water navigation layer, by content name.
pub const WATER: &'static str = "water";

/// The demo's air navigation layer, by content name.
pub const AIR: &'static str = "air";

/// The slot id of the boss: the environment AI holding the lake. The map's
/// owner-tagged placements and the lobby's appended slot agree on it.
pub const BOSS: u8 = 4;

/// Cells across.
pub const WIDTH: u32 = 96;

/// Cells down.
pub const HEIGHT: u32 = 96;

/// The lake: a circle of water in the map center.
pub const LAKE_CENTER: (u32, u32) = (48, 48);

/// The square of the lake's radius, in cells.
pub const LAKE_RADIUS_SQ: i64 = 81;

/// The rivers: one-cell water lines along the map's middle axes.
pub const RIVER_AXIS: u32 = 48;

/// The ford left open in each near-edge river arm.
pub const FORD_NEAR: (u32, u32) = (18, 20);

/// The ford left open in each far-edge river arm.
pub const FORD_FAR: (u32, u32) = (75, 77);

/// The boss fortress footprint anchor (3×3, roughly centered in the lake).
pub const FORTRESS: (u32, u32) = (46, 46);

/// Boss ship cells, spread around the fortress on open water.
pub const SHIPS: [(u32, u32); 3] = [(44, 50), (52, 46), (50, 52)];

/// Player start cells, one per corner, indexed by slot id.
pub const START_POINTS: [(u32, u32); 4] = [(12, 12), (78, 78), (12, 78), (78, 12)];

/// Gold mine cells: one near each start point.
pub const GOLD_MINES: [(u32, u32); 4] = [(21, 12), (69, 78), (21, 78), (69, 12)];

/// Tree cells (1×1 wood sources): a grove near each start.
pub const TREES: [(u32, u32); 24] = [
    (8, 16),
    (9, 16),
    (10, 16),
    (8, 17),
    (9, 17),
    (10, 17),
    (83, 76),
    (84, 76),
    (85, 76),
    (83, 77),
    (84, 77),
    (85, 77),
    (8, 73),
    (9, 73),
    (10, 73),
    (8, 74),
    (9, 74),
    (10, 74),
    (83, 16),
    (84, 16),
    (85, 16),
    (83, 17),
    (84, 17),
    (85, 17),
];

/// Gold a mine holds.
pub const MINE_GOLD: u32 = 5000;

/// Wood a tree holds.
pub const TREE_WOOD: u32 = 400;

/// How a map is drawn and measured.
#[derive(Clone, Copy, Debug, PartialEq, Eq, Structural)]
pub enum Projection {
    /// The Chebyshev metric.
    Isometric,
    /// The Euclidean metric.
    Orthogonal,
}

/// What covers a cell.
#[derive(Clone, Copy, Debug, PartialEq, Eq, Structural)]
pub enum Terrain {
    Grass,
    Water,
}

/// A seat the map declares.
#[derive(Clone, Copy, Debug)]
pub enum Seat {
    /// A player's seat, opening on its start cell.
    Player { start: (u32, u32) },
    /// A seat the environment's combatants hold.
    Environment,
}

/// Something the map itself places: a neutral resource, or an entity of an
/// environment seat.
#[derive(Debug)]
pub struct Placement {
    pub kind: String,
    pub cell: (u32, u32),
    pub owner: Option<u8>,
    pub amount: Option<u32>,
}

/// A placement as plain values.
pub struct PlacementView {
    pub kind: Seq<char>,
    pub cell: (u32, u32),
    pub owner: Option<u8>,
    pub amount: Option<u32>,
}

impl View for Placement {
    type V = PlacementView;

    open spec fn view(&self) -> PlacementView {
        PlacementView {
            kind: self.kind@,
            cell: self.cell,
            owner: self.owner,
            amount: self.amount,
        }
    }
}

/// A map as data: its size and terrain, its seats, and what it places.
pub struct MapData {
    pub name: String,
    pub projection: Projection,
    pub width: u32,
    pub height: u32,
    /// The terrain of every cell, row-major.
    pub cells: Vec<Terrain>,
    pub seats: Vec<Seat>,
    pub placements: Vec<Placement>,
}

/// Whether two maps hold the same data: name, projection, size, terrain,
/// seats and placements.
pub open spec fn same_map(a: MapData, b: MapData) -> bool {
    &&& a.name@ == b.name@
    &&& a.projection == b.projection
    &&& a.width == b.width
    &&& a.height == b.height
    &&& a.cells@ == b.cells@
    &&& a.seats@ == b.seats@
    &&& a.placements@.len() == b.placements@.len()
    &&& forall|k: int| 0 <= k < a.placements@.len() ==> #[trigger] a.placements@[k]@ == b.placements@[k]@
}

impl MapData {
    /// A copy of the map, holding the same data.
    pub fn copied(&self) -> (copy: MapData)
        ensures
            same_map(copy, *self),
    {
        let mut cells: Vec<Terrain> = Vec::new();
        let mut k: usize = 0;
        while k < self.cells.len()
            invariant
                k <= self.cells@.len(),
                cells@ == self.cells@.take(k as int),
            decreases self.cells@.len() - k,
        {
            cells.push(self.cells[k]);
            assert(cells@ =~= self.cells@.take(k + 1));
            k = k + 1;
        }
        assert(self.cells@.take(self.cells@.len() as int) =~= self.cells@);
        let mut seats: Vec<Seat> = Vec::new();
        let mut k: usize = 0;
        while k < self.seats.len()
            invariant
                k <= self.seats@.len(),
                seats@ == self.seats@.take(k as int),
            decreases self.seats@.len() - k,
        {
            seats.push(self.seats[k]);
            assert(seats@ =~= self.seats@.take(k + 1));
            k = k + 1;
        }
        assert(self.seats@.take(self.seats@.len() as int) =~= self.seats@);
        let mut placements: Vec<Placement> = Vec::new();
        let mut k: usize = 0;
        while k < self.placements.len()
            invariant
                k <= self.placements@.len(),
                placements@.len() == k,
                forall|j: int| 0 <= j < k ==> #[trigger] placements@[j]@ == self.placements@[j]@,
            decreases self.placements@.len() - k,
        {
            let from = &self.placements[k];
            placements.push(
                Placement {
                    kind: owned(from.kind.as_str()),
                    cell: from.cell,
                    owner: from.owner,
                    amount: from.amount,
                },
            );
            k = k + 1;
        }
        MapData {
            name: owned(self.name.as_str()),
            projection: self.projection,
            width: self.width,
            height: self.height,
            cells,
            seats,
            placements,
        }
    }
}

/// Whether a cell lies within the lake.
pub open spec fn spec_in_lake(x: int, y: int) -> bool {
    (x - 48) * (x - 48) + (y - 48) * (y - 48) <= 81
}

/// Whether a coordinate along a river arm is one of its fords.
pub open spec fn is_ford(along: int) -> bool {
    (18 <= along <= 20) || (75 <= along <= 77)
}

/// Whether a cell lies on a river: the middle axes outside the lake, minus the
/// fords.
pub open spec fn spec_in_river(x: int, y: int) -> bool {
    !spec_in_lake(x, y) && ((x == 48 && !is_ford(y)) || (y == 48 && !is_ford(x)))
}

/// The terrain the demo map lays on a cell.
pub open spec fn demo_terrain(x: int, y: int) -> Terrain {
    if spec_in_lake(x, y) || spec_in_river(x, y) {
        Terrain::Water
    } else {
        Terrain::Grass
    }
}

/// Returns `true` if the cell lies within the lake.
pub fn in_lake(x: u32, y: u32) -> (inside: bool)
    ensures
        inside == spec_in_lake(x as int, y as int),
{
    let dx = x as i128 - LAKE_CENTER.0 as i128;
    let dy = y as i128 - LAKE_CENTER.1 as i128;
    proof {
        assert(0 <= dx * dx <= 0x1_0000_0000 * 0x1_0000_0000) by (nonlinear_arith)
            requires
                -48 <= dx < 0x1_0000_0000,
        ;
        assert(0 <= dy * dy <= 0x1_0000_0000 * 0x1_0000_0000) by (nonlinear_arith)
            requires
                -48 <= dy < 0x1_0000_0000,
        ;
    }
    dx * dx + dy * dy <= LAKE_RADIUS_SQ as i128
}

/// Whether a coordinate along a river arm is one of its fords.
fn ford(along: u32) -> (open_: bool)
    ensures
        open_ == is_ford(along as int),
{
    (FORD_NEAR.0 <= along && along <= FORD_NEAR.1) || (FORD_FAR.0 <= along && along <= FORD_FAR.1)
}

/// Returns `true` if the cell lies on a river: the middle axes outside the
/// lake, minus the fords.
pub fn in_river(x: u32, y: u32) -> (inside: bool)
    ensures
        inside == spec_in_river(x as int, y as int),
{
    if in_lake(x, y) {
        return false;
    }
    (x == RIVER_AXIS && !ford(y)) || (y == RIVER_AXIS && !ford(x))
}

/// The neutral and boss placements of the demo map, in the order they are
/// placed: the gold mines, then the trees, then the boss's fortress and ships.
pub open spec fn demo_placement(k: int) -> PlacementView {
    if k < 4 {
        PlacementView {
            kind: "gold_mine"@,
            cell: GOLD_MINES[k],
            owner: None,
            amount: Some(MINE_GOLD),
        }
    } else if k < 28 {
        PlacementView {
            kind: "tree"@,
            cell: TREES[k - 4],
            owner: None,
            amount: Some(TREE_WOOD),
        }
    } else if k == 28 {
        PlacementView {
            kind: "sea_fortress"@,
            cell: FORTRESS,
            owner: Some(BOSS),
            amount: None,
        }
    } else {
        PlacementView { kind: "ship"@, cell: SHIPS[k - 29], owner: Some(BOSS), amount: None }
    }
}

/// How many placements the demo map makes.
pub const PLACEMENT_COUNT: usize = 32;

/// Whether `map` is the demo map: the grass field with its central lake and
/// rivers, the four corner start points, the boss's environment seat, the
/// neutral mines and groves, and the boss fleet.
pub open spec fn is_demo_map(map: MapData) -> bool {
    &&& map.name@ == NAME@
    &&& map.projection == Projection::Isometric
    &&& map.width == WIDTH
    &&& map.height == HEIGHT
    &&& map.cells@.len() == WIDTH * HEIGHT
    &&& forall|x: int, y: int|
        0 <= x < WIDTH && 0 <= y < HEIGHT ==> #[trigger] map.cells@[y * WIDTH + x]
            == demo_terrain(x, y)
    &&& map.seats@ == seq![
        Seat::Player { start: START_POINTS[0] },
        Seat::Player { start: START_POINTS[1] },
        Seat::Player { start: START_POINTS[2] },
        Seat::Player { start: START_POINTS[3] },
        Seat::Environment,
    ]
    &&& map.placements@.len() == PLACEMENT_COUNT
    &&& forall|k: int|
        0 <= k < PLACEMENT_COUNT ==> #[trigger] map.placements@[k]@ == demo_placement(k)
}

/// The demo map as data: the grass field with its central lake and rivers, the
/// four corner start points, the boss's environment seat, the neutral mines
/// and groves, and the boss fleet.
pub fn data() -> (map: MapData)
    ensures
        is_demo_map(map),
{
    let mut cells: Vec<Terrain> = Vec::new();
    let mut y: u32 = 0;
    while y < HEIGHT
        invariant
            y <= HEIGHT,
            cells@.len() == y * WIDTH,
            forall|cx: int, cy: int|
                0 <= cx < WIDTH && 0 <= cy < y ==> #[trigger] cells@[cy * WIDTH + cx]
                    == demo_terrain(cx, cy),
        decreases HEIGHT - y,
    {
        let mut x: u32 = 0;
        while x < WIDTH
            invariant
                y < HEIGHT,
                x <= WIDTH,
                cells@.len() == y * WIDTH + x,
                forall|cx: int, cy: int|
                    (0 <= cx < WIDTH && 0 <= cy < y) || (cy == y && 0 <= cx < x)
                        ==> #[trigger] cells@[cy * WIDTH + cx] == demo_terrain(cx, cy),
            decreases WIDTH - x,
        {
            let terrain = if in_lake(x, y) || in_river(x, y) {
                Terrain::Water
            } else {
                Terrain::Grass
            };
            let ghost before = cells@;
            cells.push(terrain);
            proof {
                assert forall|cx: int, cy: int|
                    (0 <= cx < WIDTH && 0 <= cy < y) || (cy == y && 0 <= cx < x + 1)
                        implies #[trigger] cells@[cy * WIDTH + cx] == demo_terrain(cx, cy) by {
                    if cy == y && cx == x {
                        assert(cy * WIDTH + cx == before.len());
                    } else {
                        assert(cy * WIDTH + cx < before.len()) by (nonlinear_arith)
                            requires
                                (0 <= cx < WIDTH && 0 <= cy < y) || (cy == y && 0 <= cx < x),
                                before.len() == y * WIDTH + x,
                        ;
                        assert(cells@[cy * WIDTH + cx] == before[cy * WIDTH + cx]);
                    }
                }
            }
            x = x + 1;
        }
        y = y + 1;
    }

    let mut seats: Vec<Seat> = Vec::new();
    let mut k: usize = 0;
    while k < 4
        invariant
            k <= 4,
            seats@.len() == k,
            forall|n: int| 0 <= n < k ==> #[trigger] seats@[n] == (Seat::Player { start: START_POINTS[n] }),
        decreases 4 - k,
    {
        seats.push(Seat::Player { start: START_POINTS[k] });
        k = k + 1;
    }
    seats.push(Seat::Environment);
    assert(seats@ =~= seq![
        Seat::Player { start: START_POINTS[0] },
        Seat::Player { start: START_POINTS[1] },
        Seat::Player { start: START_POINTS[2] },
        Seat::Player { start: START_POINTS[3] },
        Seat::Environment,
    ]);

    let mut placements: Vec<Placement> = Vec::new();
    let mut k: usize = 0;
    while k < 4
        invariant
            k <= 4,
            placements@.len() == k,
            forall|n: int| 0 <= n < k ==> #[trigger] placements@[n]@ == demo_placement(n),
        decreases 4 - k,
    {
        placements.push(
            Placement {
                kind: String::from_str("gold_mine"),
                cell: GOLD_MINES[k],
                owner: None,
                amount: Some(MINE_GOLD),
            },
        );
        k = k + 1;
    }
    let mut k: usize = 0;
    while k < 24
        invariant
            k <= 24,
            placements@.len() == 4 + k,
            forall|n: int| 0 <= n < 4 + k ==> #[trigger] placements@[n]@ == demo_placement(n),
        decreases 24 - k,
    {
        placements.push(
            Placement {
                kind: String::from_str("tree"),
                cell: TREES[k],
                owner: None,
                amount: Some(TREE_WOOD),
            },
        );
        k = k + 1;
    }
    placements.push(
        Placement {
            kind: String::from_str("sea_fortress"),
            cell: FORTRESS,
            owner: Some(BOSS),
            amount: None,
        },
    );
    let mut k: usize = 0;
    while k < 3
        invariant
            k <= 3,
            placements@.len() == 29 + k,
            forall|n: int| 0 <= n < 29 + k ==> #[trigger] placements@[n]@ == demo_placement(n),
        decreases 3 - k,
    {
        placements.push(
            Placement {
                kind: String::from_str("ship"),
                cell: SHIPS[k],
                owner: Some(BOSS),
                amount: None,
            },
        );
        k = k + 1;
    }

    MapData {
        name: String::from_str(NAME),
        projection: Projection::Isometric,
        width: WIDTH,
        height: HEIGHT,
        cells,
        seats,
        placements,
    }
}

/// Looks up a map this game knows by name. The session names its map, and the
/// scene spawner and replay playback resolve the name here.
pub fn by_name(name: &str) -> (map: Option<MapData>)
    ensures
        map is Some <==> name@ == NAME@,
        map matches Some(map) ==> is_demo_map(map),
{
    if str_eq(name, NAME) {
        Some(data())
    } else {
        None
    }
}

/// Every start point stands on dry land, in its own corner quadrant.
pub proof fn law_start_points_dry()
    ensures
        forall|k: int|
            0 <= k < 4 ==> demo_terrain(
                (#[trigger] START_POINTS[k]).0 as int,
                START_POINTS[k].1 as int,
            ) == Terrain::Grass,
        forall|k: int, n: int|
            0 <= k < n < 4 ==> ((#[trigger] START_POINTS[k]).0 < 48) != (START_POINTS[n].0 < 48)
                || (START_POINTS[k].1 < 48) != ((#[trigger] START_POINTS[n]).1 < 48),
{
    assert forall|k: int| 0 <= k < 4 implies demo_terrain(
        (#[trigger] START_POINTS[k]).0 as int,
        START_POINTS[k].1 as int,
    ) == Terrain::Grass by {
        if k == 0 { assert(START_POINTS[0] == (12u32, 12u32)); assert((12 - 48) * (12 - 48) + (12 - 48) * (12 - 48) > 81int); } else if k == 1 { assert(START_POINTS[1] == (78u32, 78u32)); assert((78 - 48) * (78 - 48) + (78 - 48) * (78 - 48) > 81int); } else if k == 2 { assert(START_POINTS[2] == (12u32, 78u32)); assert((12 - 48) * (12 - 48) + (78 - 48) * (78 - 48) > 81int); } else if k == 3 { assert(START_POINTS[3] == (78u32, 12u32)); assert((78 - 48) * (78 - 48) + (12 - 48) * (12 - 48) > 81int); }
    }
    assert forall|k: int, n: int|
        0 <= k < n < 4 implies ((#[trigger] START_POINTS[k]).0 < 48) != (START_POINTS[n].0 < 48)
        || (START_POINTS[k].1 < 48) != ((#[trigger] START_POINTS[n]).1 < 48) by {
        if k == 0 {} else if k == 1 {} else if k == 2 {} else if k == 3 {}
    }
}

/// Every neutral resource stands on dry land, and the boss fleet afloat: the
/// fortress's whole 3×3 footprint and every ship lie on water.
pub proof fn law_placements_on_their_surface()
    ensures
        forall|k: int|
            0 <= k < 4 ==> demo_terrain(
                (#[trigger] GOLD_MINES[k]).0 as int,
                GOLD_MINES[k].1 as int,
            ) == Terrain::Grass,
        forall|k: int|
            0 <= k < 24 ==> demo_terrain((#[trigger] TREES[k]).0 as int, TREES[k].1 as int)
                == Terrain::Grass,
        forall|dx: int, dy: int|
            0 <= dx < 3 && 0 <= dy < 3 ==> #[trigger] demo_terrain(46 + dx, 46 + dy)
                == Terrain::Water,
        forall|k: int|
            0 <= k < 3 ==> demo_terrain((#[trigger] SHIPS[k]).0 as int, SHIPS[k].1 as int)
                == Terrain::Water,
{
    assert forall|k: int| 0 <= k < 4 implies demo_terrain(
        (#[trigger] GOLD_MINES[k]).0 as int,
        GOLD_MINES[k].1 as int,
    ) == Terrain::Grass by {
        if k == 0 {} else if k == 1 {} else if k == 2 {} else if k == 3 {}
    }
    assert forall|k: int| 0 <= k < 24 implies demo_terrain(
        (#[trigger] TREES[k]).0 as int,
        TREES[k].1 as int,
    ) == Terrain::Grass by {
        if k == 0 {} else if k == 1 {} else if k == 2 {} else if k == 3 {} else if k == 4 {} else if k == 5 {} else if k == 6 {} else if k == 7 {} else if k == 8 {} else if k == 9 {} else if k == 10 {} else if k == 11 {} else if k == 12 {} else if k == 13 {} else if k == 14 {} else if k == 15 {} else if k == 16 {} else if k == 17 {} else if k == 18 {} else if k == 19 {} else if k == 20 {} else if k == 21 {} else if k == 22 {} else if k == 23 {}
    }
    assert forall|k: int| 0 <= k < 3 implies demo_terrain(
        (#[trigger] SHIPS[k]).0 as int,
        SHIPS[k].1 as int,
    ) == Terrain::Water by {
        if k == 0 { assert(SHIPS[0] == (44u32, 50u32)); assert((44 - 48) * (44 - 48) + (50 - 48) * (50 - 48) <= 81int); } else if k == 1 { assert(SHIPS[1] == (52u32, 46u32)); assert((52 - 48) * (52 - 48) + (46 - 48) * (46 - 48) <= 81int); } else if k == 2 { assert(SHIPS[2] == (50u32, 52u32)); assert((50 - 48) * (50 - 48) + (52 - 48) * (52 - 48) <= 81int); }
    }
    assert forall|dx: int, dy: int| 0 <= dx < 3 && 0 <= dy < 3 implies #[trigger] demo_terrain(
        46 + dx,
        46 + dy,
    ) == Terrain::Water by {
        assert((46 + dx - 48) * (46 + dx - 48) <= 4) by (nonlinear_arith)
            requires
                0 <= dx < 3,
        ;
        assert((46 + dy - 48) * (46 + dy - 48) <= 4) by (nonlinear_arith)
            requires
                0 <= dy < 3,
        ;
    }
}

/// Every river arm is broken by its ford: the three cells of each ford are
/// dry, while the rest of the middle axes, from each edge to the lake, are
/// water.
pub proof fn law_rivers_have_fords(along: int)
    requires
        0 <= along < 96,
    ensures
        is_ford(along) ==> demo_terrain(48, along) == Terrain::Grass && demo_terrain(along, 48)
            == Terrain::Grass,
        !is_ford(along) ==> demo_terrain(48, along) == Terrain::Water && demo_terrain(along, 48)
            == Terrain::Water,
{
    if is_ford(along) {
        assert((along - 48) * (along - 48) > 81) by (nonlinear_arith)
            requires
                (18 <= along <= 20) || (75 <= along <= 77),
        ;
    }
}

/// The lake is symmetric about the map's center: mirroring a cell through the
/// lake's center keeps it in or out of the lake.
pub proof fn law_lake_symmetric(x: int, y: int)
    ensures
        spec_in_lake(x, y) == spec_in_lake(96 - x, 96 - y),
        spec_in_lake(x, y) == spec_in_lake(y, x),
{
    assert((96 - x - 48) * (96 - x - 48) == (x - 48) * (x - 48)) by (nonlinear_arith);
    assert((96 - y - 48) * (96 - y - 48) == (y - 48) * (y - 48)) by (nonlinear_arith);
}

/// How many of the first `n` cells of row `y` lie in the lake.
pub open spec fn lake_row_count(y: int, n: int) -> nat
    decreases n,
{
    if n <= 0 {
        0
    } else {
        lake_row_count(y, n - 1) + if spec_in_lake(n - 1, y) {
            1nat
        } else {
            0nat
        }
    }
}

/// How many cells of the first `m` rows of the map lie in the lake.
pub open spec fn lake_cell_count(m: int) -> nat
    decreases m,
{
    if m <= 0 {
        0
    } else {
        lake_cell_count(m - 1) + lake_row_count(m - 1, WIDTH as int)
    }
}

/// The width of the lake on row `y`, read off the disc.
spec fn lake_width(y: int) -> nat {
    let d = if y < 48 { 48 - y } else { y - 48 };
    if d == 0 {
        19
    } else if d <= 4 {
        17
    } else if d == 5 {
        15
    } else if d == 6 {
        13
    } else if d == 7 {
        11
    } else if d == 8 {
        9
    } else if d == 9 {
        1
    } else {
        0
    }
}

/// The lake widths of the first `m` rows added up.
spec fn lake_width_total(m: int) -> nat
    decreases m,
{
    if m <= 0 {
        0
    } else {
        lake_width_total(m - 1) + lake_width(m - 1)
    }
}

proof fn lemma_lake_box(x: int, y: int)
    ensures
        spec_in_lake(x, y) ==> 39 <= x <= 57 && 39 <= y <= 57,
{
    if spec_in_lake(x, y) {
        assert(39 <= x <= 57 && 39 <= y <= 57) by (nonlinear_arith)
            requires
                (x - 48) * (x - 48) + (y - 48) * (y - 48) <= 81,
        ;
    }
}

proof fn lemma_row_starts_dry(y: int, n: int)
    requires
        n <= 39,
    ensures
        lake_row_count(y, n) == 0,
    decreases n,
{
    if n > 0 {
        lemma_lake_box(n - 1, y);
        lemma_row_starts_dry(y, n - 1);
    }
}

proof fn lemma_row_ends_dry(y: int, n: int)
    requires
        n >= 58,
    ensures
        lake_row_count(y, n) == lake_row_count(y, 58),
    decreases n,
{
    if n > 58 {
        lemma_lake_box(n - 1, y);
        lemma_row_ends_dry(y, n - 1);
    }
}

proof fn lemma_row_off_lake(y: int, n: int)
    requires
        !(39 <= y <= 57),
    ensures
        lake_row_count(y, n) == 0,
    decreases n,
{
    if n > 0 {
        lemma_lake_box(n - 1, y);
        lemma_row_off_lake(y, n - 1);
    }
}

proof fn lemma_square_bound(t: int, c: int, w: int)
    requires
        0 <= w,
        w * w <= c,
        c < (w + 1) * (w + 1),
    ensures
        t * t <= c <==> -w <= t <= w,
{
    if -w <= t <= w {
        assert(t * t <= w * w) by (nonlinear_arith)
            requires
                -w <= t <= w,
        ;
    } else {
        assert(t * t >= (w + 1) * (w + 1)) by (nonlinear_arith)
            requires
                t < -w || t > w,
                0 <= w,
        ;
    }
}

/// On a row that crosses it, the lake is the run of cells within `half` of
/// the middle column.
proof fn lemma_row_run(y: int, half: int)
    requires
        0 <= half <= 9,
        half * half <= 81 - (y - 48) * (y - 48),
        81 - (y - 48) * (y - 48) < (half + 1) * (half + 1),
    ensures
        forall|x: int| #[trigger] spec_in_lake(x, y) <==> 48 - half <= x <= 48 + half,
{
    assert forall|x: int| #[trigger] spec_in_lake(x, y) <==> 48 - half <= x <= 48 + half by {
        lemma_square_bound(x - 48, 81 - (y - 48) * (y - 48), half);
    }
}

proof fn lemma_run_count(y: int, n: int, lo: int, hi: int)
    requires
        0 <= lo <= hi + 1,
        forall|x: int| #[trigger] spec_in_lake(x, y) <==> lo <= x <= hi,
    ensures
        lake_row_count(y, n) == if n <= lo {
            0
        } else if n <= hi + 1 {
            n - lo
        } else {
            hi + 1 - lo
        },
    decreases n,
{
    if n > 0 {
        lemma_run_count(y, n - 1, lo, hi);
        assert(spec_in_lake(n - 1, y) <==> lo <= n - 1 <= hi);
    }
}

proof fn lemma_row_width_at(y: int)
    requires
        39 <= y <= 57,
    ensures
        lake_row_count(y, 58) == lake_width(y),
{
    let d = if y < 48 { 48 - y } else { y - 48 };
    assert((y - 48) * (y - 48) == d * d) by (nonlinear_arith)
        requires
            d == y - 48 || d == 48 - y,
    ;
    let half: int = if d == 0 {
        9
    } else if d <= 4 {
        8
    } else if d == 5 {
        7
    } else if d == 6 {
        6
    } else if d == 7 {
        5
    } else if d == 8 {
        4
    } else {
        0
    };
    assert(0 <= d <= 9);
    if d == 0 {
        assert(half * half <= 81 - d * d && 81 - d * d < (half + 1) * (half + 1)) by (nonlinear_arith)
            requires
                d == 0,
                half == 9,
        ;
    }
    if d == 1 {
        assert(half * half <= 81 - d * d && 81 - d * d < (half + 1) * (half + 1)) by (nonlinear_arith)
            requires
                d == 1,
                half == 8,
        ;
    }
    if d == 2 {
        assert(half * half <= 81 - d * d && 81 - d * d < (half + 1) * (half + 1)) by (nonlinear_arith)
            requires
                d == 2,
                half == 8,
        ;
    }
    if d == 3 {
        assert(half * half <= 81 - d * d && 81 - d * d < (half + 1) * (half + 1)) by (nonlinear_arith)
            requires
                d == 3,
                half == 8,
        ;
    }
    if d == 4 {
        assert(half * half <= 81 - d * d && 81 - d * d < (half + 1) * (half + 1)) by (nonlinear_arith)
            requires
                d == 4,
                half == 8,
        ;
    }
    if d == 5 {
        assert(half * half <= 81 - d * d && 81 - d * d < (half + 1) * (half + 1)) by (nonlinear_arith)
            requires
                d == 5,
                half == 7,
        ;
    }
    if d == 6 {
        assert(half * half <= 81 - d * d && 81 - d * d < (half + 1) * (half + 1)) by (nonlinear_arith)
            requires
                d == 6,
                half == 6,
        ;
    }
    if d == 7 {
        assert(half * half <= 81 - d * d && 81 - d * d < (half + 1) * (half + 1)) by (nonlinear_arith)
            requires
                d == 7,
                half == 5,
        ;
    }
    if d == 8 {
        assert(half * half <= 81 - d * d && 81 - d * d < (half + 1) * (half + 1)) by (nonlinear_arith)
            requires
                d == 8,
                half == 4,
        ;
    }
    if d == 9 {
        assert(half * half <= 81 - d * d && 81 - d * d < (half + 1) * (half + 1)) by (nonlinear_arith)
            requires
                d == 9,
                half == 0,
        ;
    }
    lemma_row_run(y, half);
    lemma_run_count(y, 58, 48 - half, 48 + half);
}

proof fn lemma_row_width(y: int)
    ensures
        lake_row_count(y, WIDTH as int) == lake_width(y),
{
    if 39 <= y <= 57 {
        lemma_row_ends_dry(y, WIDTH as int);
        lemma_row_width_at(y);
    } else {
        lemma_row_off_lake(y, WIDTH as int);
    }
}

proof fn lemma_cells_by_width(m: int)
    ensures
        lake_cell_count(m) == lake_width_total(m),
    decreases m,
{
    if m > 0 {
        lemma_row_width(m - 1);
        lemma_cells_by_width(m - 1);
    }
}

proof fn lemma_width_total_settles(m: int)
    requires
        m >= 58,
    ensures
        lake_width_total(m) == lake_width_total(58),
    decreases m,
{
    if m > 58 {
        lemma_width_total_settles(m - 1);
    }
}

/// The lake is a disc of 253 cells, none of them further than nine cells from
/// the center along either axis.
pub proof fn law_lake_extent(x: int, y: int)
    ensures
        spec_in_lake(x, y) ==> 39 <= x <= 57 && 39 <= y <= 57,
        lake_cell_count(HEIGHT as int) == 253,
{
    lemma_lake_box(x, y);
    lemma_cells_by_width(HEIGHT as int);
    lemma_width_total_settles(HEIGHT as int);
    reveal_with_fuel(lake_width_total, 60);
    assert(lake_width_total(58) == 253);
}

/// The rivers run along the two middle axes and never into the lake, and
/// swapping a cell's coordinates keeps it on or off a river.
pub proof fn law_rivers_on_the_axes(x: int, y: int)
    ensures
        spec_in_river(x, y) ==> !spec_in_lake(x, y) && (x == 48 || y == 48),
        spec_in_river(x, y) == spec_in_river(y, x),
{
    law_lake_symmetric(x, y);
}

} // verus!
