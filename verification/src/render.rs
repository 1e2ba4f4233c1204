//! The rules the world view draws by: whose knowledge of the map a node looks
//! through, the sides a watcher flips between, the placeholder shape each
//! entity type is drawn as, and how long the brief marks of announcements
//! last.
use vstd::prelude::*;
use crate::text::str_eq;

verus! {

broadcast use vstd::string::group_string_axioms;

/// A player seat as the view sees it: its id and its team, if any.
#[derive(Clone, Copy, Debug)]
pub struct SeatTeam {
    pub id: u8,
    pub team: Option<u8>,
}

/// Whether one of the first `k` seats is on team `t`.
pub open spec fn team_seen(seats: Seq<SeatTeam>, k: int, t: u8) -> bool {
    exists|j: int| 0 <= j < k && #[trigger] seats[j].team == Some(t)
}

/// Whether seat `k` is the first-seated member of its side: a teamless seat
/// is a side of its own, and a team's side is represented by its first seat.
pub open spec fn first_of_side(seats: Seq<SeatTeam>, k: int) -> bool {
    match seats[k].team {
        None => true,
        Some(team) => !team_seen(seats, k, team),
    }
}

/// The sides among the first `n` seats, each by its first-seated member, in
/// seat order.
pub open spec fn sides_of(seats: Seq<SeatTeam>, n: int) -> Seq<u8>
    decreases n,
{
    if n <= 0 {
        Seq::empty()
    } else if first_of_side(seats, n - 1) {
        sides_of(seats, n - 1).push(seats[n - 1].id)
    } else {
        sides_of(seats, n - 1)
    }
}

proof fn lemma_team_seen_step(seats: Seq<SeatTeam>, k: int, t: u8)
    requires
        0 <= k < seats.len(),
    ensures
        team_seen(seats, k + 1, t) == (team_seen(seats, k, t) || seats[k].team == Some(t)),
{
    if team_seen(seats, k + 1, t) && seats[k].team != Some(t) {
        let j = choose|j: int| 0 <= j < k + 1 && #[trigger] seats[j].team == Some(t);
        assert(0 <= j < k && seats[j].team == Some(t));
    }
    if team_seen(seats, k, t) {
        let j = choose|j: int| 0 <= j < k && #[trigger] seats[j].team == Some(t);
        assert(0 <= j < k + 1 && seats[j].team == Some(t));
    }
    if seats[k].team == Some(t) {
        assert(0 <= k < k + 1 && seats[k].team == Some(t));
    }
}

/// One player per side, in seat order: the first-seated member of each team,
/// and every teamless player as its own side — the sides a watcher's
/// perspective cycles through.
pub fn side_representatives(seats: &Vec<SeatTeam>) -> (sides: Vec<u8>)
    ensures
        sides@ == sides_of(seats@, seats@.len() as int),
{
    let mut sides: Vec<u8> = Vec::new();
    let mut teams: Vec<Option<u8>> = Vec::new();
    let mut k: usize = 0;
    while k < seats.len()
        invariant
            k <= seats@.len(),
            sides@ == sides_of(seats@, k as int),
            forall|t: u8| #[trigger] team_seen(seats@, k as int, t) == teams@.contains(Some(t)),
        decreases seats@.len() - k,
    {
        let seat = seats[k];
        let mut seen = false;
        match seat.team {
            Some(team) => {
                let mut n: usize = 0;
                while n < teams.len()
                    invariant
                        n <= teams@.len(),
                        seen == exists|j: int| 0 <= j < n && #[trigger] teams@[j] == Some(team),
                    decreases teams@.len() - n,
                {
                    if teams[n] == Some(team) {
                        seen = true;
                    }
                    n = n + 1;
                }
                assert(seen == teams@.contains(Some(team)));
                assert(seen == team_seen(seats@, k as int, team));
            },
            None => {},
        }
        let ghost old_teams = teams@;
        if !seen {
            sides.push(seat.id);
            teams.push(seat.team);
        }
        proof {
            assert forall|t: u8| #[trigger]
                team_seen(seats@, k + 1, t) == teams@.contains(Some(t)) by {
                lemma_team_seen_step(seats@, k as int, t);
                assert(team_seen(seats@, k as int, t) == old_teams.contains(Some(t)));
                if old_teams.contains(Some(t)) {
                    let i = choose|i: int| 0 <= i < old_teams.len() && old_teams[i] == Some(t);
                    assert(teams@[i] == Some(t));
                }
                if !seen {
                    assert(teams@ == old_teams.push(seat.team));
                    if seat.team == Some(t) {
                        assert(teams@[old_teams.len() as int] == Some(t));
                    }
                    if teams@.contains(Some(t)) {
                        let i = choose|i: int| 0 <= i < teams@.len() && teams@[i] == Some(t);
                        if i < old_teams.len() {
                            assert(old_teams[i] == Some(t));
                        }
                    }
                }
            }
        }
        k = k + 1;
    }
    sides
}

/// The side after `current` in the cycle, or `None` (the whole map) after the
/// last: the element following the first occurrence of `current`.
pub open spec fn side_after(sides: Seq<u8>, current: u8, from: int) -> Option<u8>
    decreases sides.len() - from,
{
    if from >= sides.len() {
        None
    } else if sides[from] == current {
        if from + 1 < sides.len() {
            Some(sides[from + 1])
        } else {
            None
        }
    } else {
        side_after(sides, current, from + 1)
    }
}

/// The perspective a watcher's `Tab` flips to: from the whole map to the first
/// side, from each side to the next in seat order, and from the last back to
/// the whole map.
pub fn next_perspective(current: Option<u8>, sides: &Vec<u8>) -> (next: Option<u8>)
    ensures
        next == match current {
            None => if sides@.len() > 0 {
                Some(sides@[0])
            } else {
                None
            },
            Some(side) => side_after(sides@, side, 0),
        },
{
    match current {
        None => {
            if sides.len() > 0 {
                Some(sides[0])
            } else {
                None
            }
        },
        Some(side) => {
            let mut k: usize = 0;
            while k < sides.len()
                invariant
                    k <= sides@.len(),
                    current == Some(side),
                    side_after(sides@, side, 0) == side_after(sides@, side, k as int),
                decreases sides@.len() - k,
            {
                if sides[k] == side {
                    if k + 1 < sides.len() {
                        return Some(sides[k + 1]);
                    } else {
                        return None;
                    }
                }
                k = k + 1;
            }
            None
        },
    }
}

/// Every side appears once in the cycle: starting from the whole map and
/// flipping once per side in turn visits the sides in seat order.
pub proof fn law_cycle_visits_sides_in_order(sides: Seq<u8>, k: int)
    requires
        0 <= k < sides.len() - 1,
        forall|i: int, j: int| 0 <= i < j < sides.len() ==> sides[i] != sides[j],
    ensures
        side_after(sides, sides[k], 0) == Some(sides[k + 1]),
{
    lemma_side_after_skips(sides, sides[k], 0, k);
}

/// The last side flips back to the whole map.
pub proof fn law_cycle_returns_to_whole_map(sides: Seq<u8>)
    requires
        sides.len() > 0,
        forall|i: int, j: int| 0 <= i < j < sides.len() ==> sides[i] != sides[j],
    ensures
        side_after(sides, sides.last(), 0) == None::<u8>,
{
    lemma_side_after_skips(sides, sides.last(), 0, sides.len() - 1);
}

proof fn lemma_side_after_skips(sides: Seq<u8>, current: u8, from: int, at: int)
    requires
        0 <= from <= at < sides.len(),
        sides[at] == current,
        forall|i: int, j: int| 0 <= i < j < sides.len() ==> sides[i] != sides[j],
    ensures
        side_after(sides, current, from) == if at + 1 < sides.len() {
            Some(sides[at + 1])
        } else {
            None
        },
    decreases at - from,
{
    if from < at {
        assert(sides[from] != sides[at]);
        lemma_side_after_skips(sides, current, from + 1, at);
    }
}

/// Whose knowledge of the map a node looks through.
#[derive(Clone, Copy, Debug, PartialEq, Eq, Structural)]
pub enum Perspective {
    /// One player's team vision.
    Player(u8),
    /// Everything: the map-wide view of a watcher.
    Everything,
}

/// The knowledge this node watches the map through: the local player's own
/// team vision, or — on a node with no local player — whatever the watcher
/// picked: one player's view, or everything. A player only ever sees what its
/// side sees; the map-wide view and the flipping belong to the watcher alone.
pub fn perspective(local: Option<u8>, watch: Option<u8>) -> (whose: Perspective)
    ensures
        whose == match (local, watch) {
            (Some(local), _) => Perspective::Player(local),
            (None, Some(player)) => Perspective::Player(player),
            (None, None) => Perspective::Everything,
        },
{
    match (local, watch) {
        (Some(local), _) => Perspective::Player(local),
        (None, Some(player)) => Perspective::Player(player),
        (None, None) => Perspective::Everything,
    }
}

/// The placeholder shape an entity type is drawn as.
#[derive(Clone, Copy, Debug, PartialEq, Eq, Structural)]
pub enum Shape {
    /// The archer: a triangle that points where it faces.
    Triangle,
    /// Melee fighters: a diamond.
    Diamond,
    /// The raised dead: a darkened diamond wearing pale ribs across it.
    Skeleton,
    /// The swarm's spawn: a small wedge with a pale bud on its nose.
    Spawn,
    /// Siege units (those whose hits burst): a pentagon.
    Pentagon,
    /// Workers, and the big rock: a circle.
    Circle,
    /// Larvae: a small disc with a darker core.
    Grub,
    /// Ships: a hull with a triangular bow pointing where it faces.
    Ship,
    /// Unit production: a hexagon, distinct from the main hall.
    Hexagon,
    /// The sea fortress: an octagonal wall.
    Fortress,
    /// Support units: a disc bearing a lighter cross.
    Cross,
    /// The gryphon pair, whose wing span tells the two forms apart.
    Gryphon { aloft: bool },
    /// The zeppelin: an envelope with a gondola and a tail fin.
    Zeppelin,
    /// The overlord: a bloated sac with a crown and tendrils.
    Overlord,
    /// The hive: a dome with a cap and four spires.
    Hive,
    /// The war wagon: a hull between two wheel bars.
    WarWagon,
    /// The siege works: an octagon, distinct from the camp's hexagon.
    Octagon,
    /// The watch tower: a square base bearing a lookout platform.
    WatchTower,
    /// Armed towers: the watch tower with a turret on the lookout.
    GuardTower,
    /// The spirit tower: a base bearing a pale orb in a halo.
    SpiritTower,
    /// The nerubian tower: a base bearing a dark body on four legs.
    NerubianTower,
    /// Growths: a disc bearing a darker core.
    Pod,
    /// The pylon: a square base bearing a crystal standing on its point.
    Pylon,
    /// The entangled mine: a mine's square bound by a ring of roots.
    EntangledMine,
    /// The comsat station: a base bearing a dish.
    Dish,
    /// The tech lab: a base bearing a vent bar.
    Lab,
    /// The refinery: a base bearing a holding tank and a pipe.
    Refinery,
    /// The tank, planted or not.
    Tank { sieged: bool },
    /// The undead hall grown once: a keep between two spires.
    Halls,
    /// The undead hall grown twice: a keep with towers at its corners.
    Citadel,
    /// Main buildings and resource sources: a square.
    Square,
}

/// The shape an entity type is drawn as, by its type name.
pub open spec fn shape_of(name: Seq<char>) -> Shape {
    if (name == "peasant"@ || name == "peon"@ || name == "drone"@ || name == "probe"@ || name == "wisp"@ || name == "scv"@ || name == "acolyte"@) {
        Shape::Circle
    } else if (name == "grunt"@ || name == "swarmling"@ || name == "ravager"@ || name == "zealot"@ || name == "huntress"@ || name == "ghoul"@) {
        Shape::Diamond
    } else if name == "skeleton"@ {
        Shape::Skeleton
    } else if name == "hatchling"@ {
        Shape::Spawn
    } else if (name == "archer"@ || name == "marine"@) {
        Shape::Triangle
    } else if name == "mortar"@ {
        Shape::Pentagon
    } else if (name == "medic"@ || name == "shaman"@ || name == "necromancer"@) {
        Shape::Cross
    } else if name == "ship"@ {
        Shape::Ship
    } else if (name == "training_camp"@ || name == "war_camp"@ || name == "spawning_pit"@ || name == "gateway"@ || name == "barracks"@ || name == "barracks_aloft"@ || name == "crypt"@ || name == "temple_of_the_damned"@) {
        Shape::Hexagon
    } else if name == "sea_fortress"@ {
        Shape::Fortress
    } else if name == "gryphon"@ {
        Shape::Gryphon { aloft: false }
    } else if name == "gryphon_aloft"@ {
        Shape::Gryphon { aloft: true }
    } else if name == "zeppelin"@ {
        Shape::Zeppelin
    } else if name == "overlord"@ {
        Shape::Overlord
    } else if name == "hive"@ {
        Shape::Hive
    } else if name == "war_wagon"@ {
        Shape::WarWagon
    } else if (name == "siege_works"@ || name == "factory"@ || name == "factory_aloft"@) {
        Shape::Octagon
    } else if name == "watch_tower"@ {
        Shape::WatchTower
    } else if (name == "guard_tower"@ || name == "photon_cannon"@) {
        Shape::GuardTower
    } else if name == "spirit_tower"@ {
        Shape::SpiritTower
    } else if name == "nerubian_tower"@ {
        Shape::NerubianTower
    } else if (name == "tumor"@ || name == "cocoon"@ || name == "hive_cocoon"@ || name == "egg"@) {
        Shape::Pod
    } else if name == "larva"@ {
        Shape::Grub
    } else if name == "pylon"@ {
        Shape::Pylon
    } else if (name == "ancient_of_war"@ || name == "ancient_of_war_uprooted"@) {
        Shape::Hexagon
    } else if (name == "ancient_protector"@ || name == "ancient_protector_uprooted"@) {
        Shape::GuardTower
    } else if (name == "entangled_mine"@ || name == "haunted_mine"@) {
        Shape::EntangledMine
    } else if name == "comsat_station"@ {
        Shape::Dish
    } else if name == "tech_lab"@ {
        Shape::Lab
    } else if name == "refinery"@ {
        Shape::Refinery
    } else if name == "tank"@ {
        Shape::Tank { sieged: false }
    } else if name == "siege_tank"@ {
        Shape::Tank { sieged: true }
    } else if name == "big_rock"@ {
        Shape::Circle
    } else if (name == "halls_of_the_dead"@ || name == "halls_of_the_dead_rising"@) {
        Shape::Halls
    } else if (name == "black_citadel"@ || name == "black_citadel_rising"@) {
        Shape::Citadel
    } else {
        Shape::Square
    }
}

/// Picks a shape from the entity type name; anything unlisted is a square.
pub fn shape_for(name: &str) -> (shape: Shape)
    ensures
        shape == shape_of(name@),
{
    if (str_eq(name, "peasant") || str_eq(name, "peon") || str_eq(name, "drone") || str_eq(name, "probe") || str_eq(name, "wisp") || str_eq(name, "scv") || str_eq(name, "acolyte")) {
        Shape::Circle
    } else if (str_eq(name, "grunt") || str_eq(name, "swarmling") || str_eq(name, "ravager") || str_eq(name, "zealot") || str_eq(name, "huntress") || str_eq(name, "ghoul")) {
        Shape::Diamond
    } else if str_eq(name, "skeleton") {
        Shape::Skeleton
    } else if str_eq(name, "hatchling") {
        Shape::Spawn
    } else if (str_eq(name, "archer") || str_eq(name, "marine")) {
        Shape::Triangle
    } else if str_eq(name, "mortar") {
        Shape::Pentagon
    } else if (str_eq(name, "medic") || str_eq(name, "shaman") || str_eq(name, "necromancer")) {
        Shape::Cross
    } else if str_eq(name, "ship") {
        Shape::Ship
    } else if (str_eq(name, "training_camp") || str_eq(name, "war_camp") || str_eq(name, "spawning_pit") || str_eq(name, "gateway") || str_eq(name, "barracks") || str_eq(name, "barracks_aloft") || str_eq(name, "crypt") || str_eq(name, "temple_of_the_damned")) {
        Shape::Hexagon
    } else if str_eq(name, "sea_fortress") {
        Shape::Fortress
    } else if str_eq(name, "gryphon") {
        Shape::Gryphon { aloft: false }
    } else if str_eq(name, "gryphon_aloft") {
        Shape::Gryphon { aloft: true }
    } else if str_eq(name, "zeppelin") {
        Shape::Zeppelin
    } else if str_eq(name, "overlord") {
        Shape::Overlord
    } else if str_eq(name, "hive") {
        Shape::Hive
    } else if str_eq(name, "war_wagon") {
        Shape::WarWagon
    } else if (str_eq(name, "siege_works") || str_eq(name, "factory") || str_eq(name, "factory_aloft")) {
        Shape::Octagon
    } else if str_eq(name, "watch_tower") {
        Shape::WatchTower
    } else if (str_eq(name, "guard_tower") || str_eq(name, "photon_cannon")) {
        Shape::GuardTower
    } else if str_eq(name, "spirit_tower") {
        Shape::SpiritTower
    } else if str_eq(name, "nerubian_tower") {
        Shape::NerubianTower
    } else if (str_eq(name, "tumor") || str_eq(name, "cocoon") || str_eq(name, "hive_cocoon") || str_eq(name, "egg")) {
        Shape::Pod
    } else if str_eq(name, "larva") {
        Shape::Grub
    } else if str_eq(name, "pylon") {
        Shape::Pylon
    } else if (str_eq(name, "ancient_of_war") || str_eq(name, "ancient_of_war_uprooted")) {
        Shape::Hexagon
    } else if (str_eq(name, "ancient_protector") || str_eq(name, "ancient_protector_uprooted")) {
        Shape::GuardTower
    } else if (str_eq(name, "entangled_mine") || str_eq(name, "haunted_mine")) {
        Shape::EntangledMine
    } else if str_eq(name, "comsat_station") {
        Shape::Dish
    } else if str_eq(name, "tech_lab") {
        Shape::Lab
    } else if str_eq(name, "refinery") {
        Shape::Refinery
    } else if str_eq(name, "tank") {
        Shape::Tank { sieged: false }
    } else if str_eq(name, "siege_tank") {
        Shape::Tank { sieged: true }
    } else if str_eq(name, "big_rock") {
        Shape::Circle
    } else if (str_eq(name, "halls_of_the_dead") || str_eq(name, "halls_of_the_dead_rising")) {
        Shape::Halls
    } else if (str_eq(name, "black_citadel") || str_eq(name, "black_citadel_rising")) {
        Shape::Citadel
    } else {
        Shape::Square
    }
}

/// Whether the type is one of the elves' ancients on the move: it keeps its
/// building's shape and carries its roots along.
pub fn uprooted(name: &str) -> (moving: bool)
    ensures
        moving == (name@ == "tree_of_life_uprooted"@ || name@ == "ancient_of_war_uprooted"@ || name@ == "ancient_protector_uprooted"@),
{
    (str_eq(name, "tree_of_life_uprooted") || str_eq(name, "ancient_of_war_uprooted") || str_eq(name, "ancient_protector_uprooted"))
}

/// The outline a remembered building is ghosted with, matching the shape its
/// live building renders as.
#[derive(Clone, Copy, Debug, PartialEq, Eq, Structural)]
pub enum GhostOutline {
    /// A rectangle spanning most of the footprint.
    Rect,
    /// A regular polygon of `sides`.
    Polygon { sides: u32 },
    /// A circle inside the footprint.
    Circle,
}

/// The ghost outline of a building drawn as `shape`: the hexagon and octagon
/// buildings keep their polygons, the round ones their circles, and
/// everything else is ghosted by its footprint.
pub fn ghost_outline(shape: Shape) -> (outline: GhostOutline)
    ensures
        outline == match shape {
            Shape::Hexagon => GhostOutline::Polygon { sides: 6 },
            Shape::Fortress | Shape::Octagon => GhostOutline::Polygon { sides: 8 },
            Shape::Circle | Shape::Pod | Shape::Grub | Shape::Hive => GhostOutline::Circle,
            _ => GhostOutline::Rect,
        },
{
    match shape {
        Shape::Hexagon => GhostOutline::Polygon { sides: 6 },
        Shape::Fortress | Shape::Octagon => GhostOutline::Polygon { sides: 8 },
        Shape::Circle | Shape::Pod | Shape::Grub | Shape::Hive => GhostOutline::Circle,
        _ => GhostOutline::Rect,
    }
}

/// How a projectile kind is drawn.
#[derive(Clone, Copy, Debug, PartialEq, Eq, Structural)]
pub enum ShotKind {
    /// A short line along the flight.
    Arrow,
    /// A large ball.
    Cannonball,
    /// A triangle, for a shot that bursts on arrival.
    Shell,
    /// A plain small ball: an unregistered or unnamed kind, so a content
    /// addition is visible before it is styled.
    Plain,
}

/// The way a projectile kind is drawn, by its registered name.
pub fn shot_kind(name: Option<&str>) -> (kind: ShotKind)
    ensures
        kind == match name {
            Some(name) => if name@ == "arrow"@ {
                ShotKind::Arrow
            } else if name@ == "cannonball"@ {
                ShotKind::Cannonball
            } else if name@ == "shell"@ {
                ShotKind::Shell
            } else {
                ShotKind::Plain
            },
            None => ShotKind::Plain,
        },
{
    match name {
        Some(name) => {
            if str_eq(name, "arrow") {
                ShotKind::Arrow
            } else if str_eq(name, "cannonball") {
                ShotKind::Cannonball
            } else if str_eq(name, "shell") {
                ShotKind::Shell
            } else {
                ShotKind::Plain
            }
        },
        None => ShotKind::Plain,
    }
}

/// Ticks a skill's ring pulse lives: counted in ticks because it marks
/// something the simulation did.
pub const PULSE_TICKS: u32 = 9;

/// Whether a pulse started on `started` is still alive on `tick`.
pub open spec fn pulse_alive(started: u32, tick: u32) -> bool {
    (if tick >= started {
        tick - started
    } else {
        0
    }) <= PULSE_TICKS
}

/// Drops the pulses that have run out by `tick`, keeping the rest in order, so
/// the store stays bounded across a seek that runs many ticks before anything
/// draws. Each pulse is a target, by id, and the tick it started on.
pub fn prune_pulses(pulses: &mut Vec<(u64, u32)>, tick: u32)
    ensures
        final(pulses)@ == old(pulses)@.filter(|pulse: (u64, u32)| pulse_alive(pulse.1, tick)),
{
    let ghost before = pulses@;
    let mut kept: Vec<(u64, u32)> = Vec::new();
    let mut k: usize = 0;
    while k < pulses.len()
        invariant
            pulses@ == before,
            k <= before.len(),
            kept@ == before.take(k as int).filter(
                |pulse: (u64, u32)| pulse_alive(pulse.1, tick),
            ),
        decreases before.len() - k,
    {
        let pulse = pulses[k];
        proof {
            assert(before.take(k + 1).drop_last() =~= before.take(k as int));
            before.take(k as int).lemma_filter_push(
                pulse,
                |p: (u64, u32)| pulse_alive(p.1, tick),
            );
            assert(before.take(k as int).push(pulse) =~= before.take(k + 1));
        }
        if tick.saturating_sub(pulse.1) <= PULSE_TICKS {
            kept.push(pulse);
        }
        k = k + 1;
    }
    assert(before.take(before.len() as int) =~= before);
    *pulses = kept;
}

/// Where in the stack a type is drawn.
#[derive(Clone, Copy, Debug, PartialEq, Eq, Structural)]
pub enum DrawLayer {
    /// Lifted up the screen and drawn over everything on the ground.
    Air,
    /// Drawn over what stands on the ground — a worker sitting in a tree
    /// shows on the tree, not behind it.
    Walking,
    /// Drawn where it stands, under everything that moves.
    Standing,
}

/// The layer a type is drawn in: a flier — one that occupies the air alone —
/// in the air, anything else that can move over what stands, the rest where
/// it stands.
pub fn draw_layer(airborne: bool, can_move: bool) -> (layer: DrawLayer)
    ensures
        layer == if airborne {
            DrawLayer::Air
        } else if can_move {
            DrawLayer::Walking
        } else {
            DrawLayer::Standing
        },
{
    if airborne {
        DrawLayer::Air
    } else if can_move {
        DrawLayer::Walking
    } else {
        DrawLayer::Standing
    }
}

/// The colour a player's presence is drawn in: the four demo seats' blue, red,
/// green and purple, and tan beyond them.
#[derive(Clone, Copy, Debug, PartialEq, Eq, Structural)]
pub enum PlayerHue {
    Blue,
    Red,
    Green,
    Purple,
    Tan,
}

/// The hue of a player's presence, wherever it appears — blips, selection
/// rings, vision overlays.
pub open spec fn player_hue_of(player: u8) -> PlayerHue {
    if player == 0 {
        PlayerHue::Blue
    } else if player == 1 {
        PlayerHue::Red
    } else if player == 2 {
        PlayerHue::Green
    } else if player == 3 {
        PlayerHue::Purple
    } else {
        PlayerHue::Tan
    }
}

/// The hue a player's presence is drawn in.
pub fn player_hue(player: u8) -> (hue: PlayerHue)
    ensures
        hue == player_hue_of(player),
{
    match player {
        0 => PlayerHue::Blue,
        1 => PlayerHue::Red,
        2 => PlayerHue::Green,
        3 => PlayerHue::Purple,
        _ => PlayerHue::Tan,
    }
}

/// What an entity's body is painted in.
#[derive(Clone, Copy, Debug, PartialEq, Eq, Structural)]
pub enum Paint {
    /// A tree: brown.
    Wood,
    /// A gold mine: yellow.
    Gold,
    /// Any other resource source: tan.
    OtherSource,
    /// The environment's combatants: one dark slate, whichever seat holds them.
    Environment,
    /// A player's entity, in its hue.
    Player(PlayerHue),
    /// Unowned: tan.
    Neutral,
}

/// The paint of an entity: a resource source by what it yields, regardless of
/// ownership; an environment combatant in the environment's slate; anything
/// else owned in its player's hue; the rest neutral. `source` is the kind a
/// source yields; `owner` its owner and whether that owner is an environment
/// seat.
pub open spec fn paint_of(source: Option<Seq<char>>, owner: Option<(u8, bool)>) -> Paint {
    match source {
        Some(kind) => if kind == "wood"@ {
            Paint::Wood
        } else if kind == "gold"@ {
            Paint::Gold
        } else {
            Paint::OtherSource
        },
        None => match owner {
            Some((_, true)) => Paint::Environment,
            Some((player, false)) => Paint::Player(player_hue_of(player)),
            None => Paint::Neutral,
        },
    }
}

/// Picks the paint an entity's body is drawn in.
pub fn paint_for(source: Option<&str>, owner: Option<(u8, bool)>) -> (paint: Paint)
    ensures
        paint == paint_of(
            match source {
                Some(kind) => Some(kind@),
                None => None,
            },
            owner,
        ),
{
    match source {
        Some(kind) => {
            if str_eq(kind, "wood") {
                Paint::Wood
            } else if str_eq(kind, "gold") {
                Paint::Gold
            } else {
                Paint::OtherSource
            }
        },
        None => match owner {
            Some((_, true)) => Paint::Environment,
            Some((player, false)) => Paint::Player(player_hue(player)),
            None => Paint::Neutral,
        },
    }
}

/// How an entity's sprite looks: its shape, whether it is drawn as remains —
/// greyed and small — and whether it carries an uprooted ancient's roots.
#[derive(Clone, Copy, Debug, PartialEq, Eq, Structural)]
pub struct SpriteLook {
    pub shape: Shape,
    pub remains: bool,
    pub roots: bool,
}

/// The look of an entity of type `name`; `fallen` names the type a body on
/// the ground fell as. Remains wear whoever fell there: the fallen type's
/// silhouette, so a field of bodies reads as bodies rather than as a crowd of
/// whatever they were.
pub fn sprite_look(name: &str, fallen: Option<&str>) -> (look: SpriteLook)
    ensures
        look.shape == match fallen {
            Some(kind) => shape_of(kind@),
            None => shape_of(name@),
        },
        look.remains == fallen is Some,
        look.roots == (name@ == "tree_of_life_uprooted"@ || name@ == "ancient_of_war_uprooted"@
            || name@ == "ancient_protector_uprooted"@),
{
    let shape = match fallen {
        Some(kind) => shape_for(kind),
        None => shape_for(name),
    };
    SpriteLook { shape, remains: fallen.is_some(), roots: uprooted(name) }
}

/// A slim bar over an entity, and how full it is: `done` of `whole`.
#[derive(Clone, Copy, Debug, PartialEq, Eq, Structural)]
pub enum BarKind {
    Energy,
    Health,
    /// What is left of a timed life.
    Lifetime,
    Construction,
    /// Training, with a dot above the bar per queued unit.
    Training { queued: usize },
    Research,
    /// A running form change.
    Morph,
    /// A breeder's wait for its next birth.
    Brood,
}

/// A status bar: what it measures and how full it is.
#[derive(Clone, Copy, Debug, PartialEq, Eq, Structural)]
pub struct StatusBar {
    pub kind: BarKind,
    pub done: u64,
    pub whole: u64,
}

/// What the bars over an entity read. Energy and health come as the current
/// value and the effective ceiling; the lifetime as age and limit; every
/// progress as the progress and the length it runs to, where one is known;
/// training also with how many units are queued (present while anything is).
#[derive(Clone, Copy, Debug)]
pub struct BarFacts {
    pub energy: Option<(u64, u64)>,
    pub health: Option<(u64, u64)>,
    pub lifetime: Option<(u32, u32)>,
    pub construction: Option<(u32, Option<u32>)>,
    pub training: Option<(u32, Option<u32>, usize)>,
    pub research: Option<(u32, Option<u32>)>,
    pub morph: Option<(u32, Option<u32>)>,
    pub brood: Option<(u32, u32)>,
}

/// A length that is never zero: an unknown one reads as one tick.
pub open spec fn length_of(time: Option<u32>) -> u64 {
    match time {
        Some(t) => if t == 0 {
            1
        } else {
            t as u64
        },
        None => 1,
    }
}

/// A progress bar over `time`.
pub open spec fn progress_bar(kind: BarKind, progress: u32, time: Option<u32>) -> StatusBar {
    StatusBar { kind, done: progress as u64, whole: length_of(time) }
}

/// A bar as a sequence: the bar alone, or nothing.
pub open spec fn shown(bar: Option<StatusBar>) -> Seq<StatusBar> {
    match bar {
        Some(b) => seq![b],
        None => Seq::empty(),
    }
}

/// The bars of the measures that read against a ceiling: energy and health,
/// each shown only under a ceiling above zero, and the lifetime, shown only
/// under a limit above zero, as what is left of it.
pub open spec fn gauge_bars(facts: BarFacts) -> Seq<StatusBar> {
    shown(
        match facts.energy {
            Some((current, max)) if max > 0 => Some(StatusBar { kind: BarKind::Energy, done: current, whole: max }),
            _ => None,
        },
    ) + shown(
        match facts.health {
            Some((current, max)) if max > 0 => Some(StatusBar { kind: BarKind::Health, done: current, whole: max }),
            _ => None,
        },
    ) + shown(
        match facts.lifetime {
            Some((age, limit)) if limit > 0 => Some(
                StatusBar {
                    kind: BarKind::Lifetime,
                    done: (if age >= limit {
                        0
                    } else {
                        limit - age
                    }) as u64,
                    whole: limit as u64,
                },
            ),
            _ => None,
        },
    )
}

/// The progress bars, in order: construction, research, form change,
/// breeding, training.
pub open spec fn work_bars(facts: BarFacts) -> Seq<StatusBar> {
    shown(
        match facts.construction {
            Some((progress, time)) => Some(progress_bar(BarKind::Construction, progress, time)),
            None => None,
        },
    ) + shown(
        match facts.research {
            Some((progress, time)) => Some(progress_bar(BarKind::Research, progress, time)),
            None => None,
        },
    ) + shown(
        match facts.morph {
            Some((progress, time)) => Some(progress_bar(BarKind::Morph, progress, time)),
            None => None,
        },
    ) + shown(
        match facts.brood {
            Some((progress, period)) => Some(progress_bar(BarKind::Brood, progress, Some(period))),
            None => None,
        },
    ) + shown(
        match facts.training {
            Some((progress, time, queued)) => Some(progress_bar(BarKind::Training { queued }, progress, time)),
            None => None,
        },
    )
}

/// The bars over an entity, top-down in the order they stack: energy, then
/// health, then what is left of a timed life, then construction progress
/// while a site goes up, then research progress, then a running form
/// change's progress, then a breeder's progress toward its next birth, then
/// training progress at the bottom — for whichever of those the entity has. A ceiling or a
/// limit of zero shows no bar.
pub open spec fn bars_of(facts: BarFacts) -> Seq<StatusBar> {
    gauge_bars(facts) + work_bars(facts)
}

fn length(time: Option<u32>) -> (whole: u64)
    ensures
        whole == length_of(time),
{
    match time {
        Some(t) => if t == 0 {
            1
        } else {
            t as u64
        },
        None => 1,
    }
}

fn show(bars: &mut Vec<StatusBar>, bar: Option<StatusBar>)
    ensures
        final(bars)@ == old(bars)@ + shown(bar),
{
    match bar {
        Some(b) => {
            bars.push(b);
            assert(bars@ =~= old(bars)@ + shown(bar));
        },
        None => {
            assert(bars@ =~= old(bars)@ + shown(bar));
        },
    }
}

fn gauges(facts: BarFacts) -> (bars: Vec<StatusBar>)
    ensures
        bars@ == gauge_bars(facts),
{
    let mut bars: Vec<StatusBar> = Vec::new();
    let energy = match facts.energy {
        Some((current, max)) => if max > 0 {
            Some(StatusBar { kind: BarKind::Energy, done: current, whole: max })
        } else {
            None
        },
        None => None,
    };
    show(&mut bars, energy);
    let health = match facts.health {
        Some((current, max)) => if max > 0 {
            Some(StatusBar { kind: BarKind::Health, done: current, whole: max })
        } else {
            None
        },
        None => None,
    };
    show(&mut bars, health);
    let lifetime = match facts.lifetime {
        Some((age, limit)) => if limit > 0 {
            Some(StatusBar { kind: BarKind::Lifetime, done: limit.saturating_sub(age) as u64, whole: limit as u64 })
        } else {
            None
        },
        None => None,
    };
    show(&mut bars, lifetime);
    assert(bars@ =~= gauge_bars(facts));
    bars
}

fn works(facts: BarFacts) -> (bars: Vec<StatusBar>)
    ensures
        bars@ == work_bars(facts),
{
    let mut bars: Vec<StatusBar> = Vec::new();
    let construction = match facts.construction {
        Some((progress, time)) => Some(StatusBar { kind: BarKind::Construction, done: progress as u64, whole: length(time) }),
        None => None,
    };
    show(&mut bars, construction);
    let research = match facts.research {
        Some((progress, time)) => Some(StatusBar { kind: BarKind::Research, done: progress as u64, whole: length(time) }),
        None => None,
    };
    show(&mut bars, research);
    let morph = match facts.morph {
        Some((progress, time)) => Some(StatusBar { kind: BarKind::Morph, done: progress as u64, whole: length(time) }),
        None => None,
    };
    show(&mut bars, morph);
    let brood = match facts.brood {
        Some((progress, period)) => Some(StatusBar { kind: BarKind::Brood, done: progress as u64, whole: length(Some(period)) }),
        None => None,
    };
    show(&mut bars, brood);
    let training = match facts.training {
        Some((progress, time, queued)) => Some(StatusBar { kind: BarKind::Training { queued }, done: progress as u64, whole: length(time) }),
        None => None,
    };
    show(&mut bars, training);
    assert(bars@ =~= work_bars(facts));
    bars
}

/// Lays out the slim bars over an entity, for whichever of them it has.
pub fn status_bars(facts: BarFacts) -> (bars: Vec<StatusBar>)
    ensures
        bars@ == bars_of(facts),
{
    let mut bars = gauges(facts);
    let mut rest = works(facts);
    bars.append(&mut rest);
    bars
}

/// Whether every bar has a whole above zero.
pub open spec fn wholes_positive(bars: Seq<StatusBar>) -> bool {
    forall|k: int| 0 <= k < bars.len() ==> (#[trigger] bars[k]).whole > 0
}

proof fn lemma_wholes_join(a: Seq<StatusBar>, b: Seq<StatusBar>)
    requires
        wholes_positive(a),
        wholes_positive(b),
    ensures
        wholes_positive(a + b),
{
    assert forall|k: int| 0 <= k < (a + b).len() implies (#[trigger] (a + b)[k]).whole > 0 by {
        if k < a.len() {
            assert((a + b)[k] == a[k]);
        } else {
            assert((a + b)[k] == b[k - a.len()]);
        }
    }
}

proof fn lemma_shown_positive(bar: Option<StatusBar>)
    requires
        bar matches Some(b) ==> b.whole > 0,
    ensures
        wholes_positive(shown(bar)),
{
}

/// No bar is ever drawn against an empty whole, so every fraction is defined.
pub proof fn law_bars_have_a_whole(facts: BarFacts)
    ensures
        wholes_positive(bars_of(facts)),
{
    let energy = match facts.energy {
        Some((current, max)) if max > 0 => Some(StatusBar { kind: BarKind::Energy, done: current, whole: max }),
        _ => None,
    };
    let health = match facts.health {
        Some((current, max)) if max > 0 => Some(StatusBar { kind: BarKind::Health, done: current, whole: max }),
        _ => None,
    };
    let lifetime = match facts.lifetime {
        Some((age, limit)) if limit > 0 => Some(
            StatusBar {
                kind: BarKind::Lifetime,
                done: (if age >= limit {
                    0
                } else {
                    limit - age
                }) as u64,
                whole: limit as u64,
            },
        ),
        _ => None,
    };
    lemma_shown_positive(energy);
    lemma_shown_positive(health);
    lemma_shown_positive(lifetime);
    lemma_wholes_join(shown(energy), shown(health));
    lemma_wholes_join(shown(energy) + shown(health), shown(lifetime));
    let c = match facts.construction {
        Some((progress, time)) => Some(progress_bar(BarKind::Construction, progress, time)),
        None => None,
    };
    let t = match facts.training {
        Some((progress, time, queued)) => Some(progress_bar(BarKind::Training { queued }, progress, time)),
        None => None,
    };
    let r = match facts.research {
        Some((progress, time)) => Some(progress_bar(BarKind::Research, progress, time)),
        None => None,
    };
    let m = match facts.morph {
        Some((progress, time)) => Some(progress_bar(BarKind::Morph, progress, time)),
        None => None,
    };
    let b = match facts.brood {
        Some((progress, period)) => Some(progress_bar(BarKind::Brood, progress, Some(period))),
        None => None,
    };
    lemma_shown_positive(c);
    lemma_shown_positive(t);
    lemma_shown_positive(r);
    lemma_shown_positive(m);
    lemma_shown_positive(b);
    lemma_wholes_join(shown(c), shown(r));
    lemma_wholes_join(shown(c) + shown(r), shown(m));
    lemma_wholes_join(shown(c) + shown(r) + shown(m), shown(b));
    lemma_wholes_join(shown(c) + shown(r) + shown(m) + shown(b), shown(t));
    assert(gauge_bars(facts) == shown(energy) + shown(health) + shown(lifetime));
    assert(work_bars(facts) == shown(c) + shown(r) + shown(m) + shown(b) + shown(t));
    lemma_wholes_join(gauge_bars(facts), work_bars(facts));
}

/// How a construction site stands with its workers.
#[derive(Clone, Copy, Debug, PartialEq, Eq, Structural)]
pub enum SiteWork {
    /// Builders at work, this many of them.
    Crew { builders: usize },
    /// Halted.
    Halted,
    /// Going up on its own.
    Unattended,
}

/// The marks over a job: how many crew dots stand above it — carriers on a
/// source being worked, repairers on an entity being mended, builders on a
/// site — and whether it wears the halted ring.
pub fn work_marks(carriers: Option<usize>, repairers: Option<usize>, site: Option<SiteWork>) -> (marks: (
    usize,
    bool,
))
    requires
        (match carriers {
            Some(n) => n as int,
            None => 0int,
        }) + (match repairers {
            Some(n) => n as int,
            None => 0int,
        }) + (match site {
            Some(SiteWork::Crew { builders }) => builders as int,
            _ => 0int,
        }) <= usize::MAX,
    ensures
        marks.0 == (match carriers {
            Some(n) => n as int,
            None => 0int,
        }) + (match repairers {
            Some(n) => n as int,
            None => 0int,
        }) + (match site {
            Some(SiteWork::Crew { builders }) => builders as int,
            _ => 0int,
        }),
        marks.1 == (site == Some(SiteWork::Halted)),
{
    let mut crew: usize = 0;
    match carriers {
        Some(n) => crew = crew + n,
        None => {},
    }
    match repairers {
        Some(n) => crew = crew + n,
        None => {},
    }
    let mut halted = false;
    match site {
        Some(SiteWork::Crew { builders }) => crew = crew + builders,
        Some(SiteWork::Halted) => halted = true,
        Some(SiteWork::Unattended) => {},
        None => {},
    }
    (crew, halted)
}

/// The player whose own fields this node draws: the local player, or the side
/// a watcher is looking through.
pub fn viewed_player(local: Option<u8>, watch: Option<u8>) -> (viewed: Option<u8>)
    ensures
        viewed == match local {
            Some(player) => Some(player),
            None => watch,
        },
{
    match local {
        Some(player) => Some(player),
        None => watch,
    }
}

/// What a cell's field overlay is tinted by.
#[derive(Clone, Copy, Debug, PartialEq, Eq, Structural)]
pub enum FieldTint {
    /// Anyone's creep.
    Creep,
    /// Anyone's blight.
    Blight,
    /// The viewed player's own power.
    Power,
    /// Nothing drawn.
    Clear,
}

/// The tint of a cell's field tile: creep and blight are shown whoever's they
/// are, creep over blight; power only where it is the viewed player's own.
/// `power_holders` are the players whose power covers the cell.
pub open spec fn field_tint_of(creep: bool, blight: bool, power_holders: Seq<u8>, viewed: Option<u8>) -> FieldTint {
    if creep {
        FieldTint::Creep
    } else if blight {
        FieldTint::Blight
    } else if viewed matches Some(player) && power_holders.contains(player) {
        FieldTint::Power
    } else {
        FieldTint::Clear
    }
}

/// Picks the tint of a cell's field tile.
pub fn field_tint(creep: bool, blight: bool, power_holders: &Vec<u8>, viewed: Option<u8>) -> (tint: FieldTint)
    ensures
        tint == field_tint_of(creep, blight, power_holders@, viewed),
{
    if creep {
        return FieldTint::Creep;
    }
    if blight {
        return FieldTint::Blight;
    }
    if let Some(player) = viewed {
        let mut k: usize = 0;
        while k < power_holders.len()
            invariant
                !creep,
                !blight,
                viewed == Some(player),
                k <= power_holders@.len(),
                forall|j: int| 0 <= j < k ==> power_holders@[j] != player,
            decreases power_holders@.len() - k,
        {
            if power_holders[k] == player {
                assert(power_holders@.contains(player)) by {
                    assert(power_holders@[k as int] == player);
                }
                return FieldTint::Power;
            }
            k = k + 1;
        }
    }
    FieldTint::Clear
}

/// What a viewer knows of a cell.
#[derive(Clone, Copy, Debug, PartialEq, Eq, Structural)]
pub enum CellKnowledge {
    /// Never seen.
    Unexplored,
    /// Seen once, out of sight now.
    Explored,
    /// In sight.
    Visible,
}

/// How dark a cell's fog tile is drawn.
#[derive(Clone, Copy, Debug, PartialEq, Eq, Structural)]
pub enum FogShade {
    /// Black: nothing known.
    Black,
    /// Dimmed: remembered, not in sight.
    Dimmed,
    /// Clear: in sight.
    Clear,
}

/// The fog over a cell: black where the perspective never looked, dimmed where
/// it remembers, clear where it sees; clear everywhere while the fog is lifted.
pub fn fog_shade(reveal: bool, knowledge: CellKnowledge) -> (shade: FogShade)
    ensures
        shade == if reveal {
            FogShade::Clear
        } else {
            match knowledge {
                CellKnowledge::Unexplored => FogShade::Black,
                CellKnowledge::Explored => FogShade::Dimmed,
                CellKnowledge::Visible => FogShade::Clear,
            }
        },
{
    if reveal {
        return FogShade::Clear;
    }
    match knowledge {
        CellKnowledge::Unexplored => FogShade::Black,
        CellKnowledge::Explored => FogShade::Dimmed,
        CellKnowledge::Visible => FogShade::Clear,
    }
}

/// The kind of order at the front of a worker's queue, as far as its work line
/// cares.
#[derive(Clone, Copy, Debug, PartialEq, Eq, Structural)]
pub enum FrontOrder {
    Build,
    Harvest,
    Repair,
    /// Any order that is no work on something else.
    Other,
}

/// The line from a worker to what it is working on.
#[derive(Clone, Copy, Debug, PartialEq, Eq, Structural)]
pub enum WorkLink {
    /// To the site it is raising.
    Site,
    /// To the source it is harvesting, by id.
    Source(u64),
    /// To what it is mending; stalled while the mending is held up.
    Mend { stalled: bool },
}

/// The work line a worker shows, drawn from the order it is carrying out: to a
/// site it is building once the site is there, to the source it is harvesting
/// once it has one, to what it is mending (stalled or not) while it mends, and
/// none for anything else. `building` says a site stands for its build order,
/// `harvesting` the source its harvest has, `repair_stalled` how many ticks its
/// mending has been held up, if it is mending.
pub open spec fn work_link_of(
    front: Option<FrontOrder>,
    building: bool,
    harvesting: Option<u64>,
    repair_stalled: Option<u32>,
) -> Option<WorkLink> {
    match front {
        Some(FrontOrder::Build) => if building {
            Some(WorkLink::Site)
        } else {
            None
        },
        Some(FrontOrder::Harvest) => match harvesting {
            Some(source) => Some(WorkLink::Source(source)),
            None => None,
        },
        Some(FrontOrder::Repair) => match repair_stalled {
            Some(stalled) => Some(WorkLink::Mend { stalled: stalled > 0 }),
            None => None,
        },
        _ => None,
    }
}

/// Picks the work line a worker shows.
pub fn work_link(front: Option<FrontOrder>, building: bool, harvesting: Option<u64>, repair_stalled: Option<u32>) -> (link: Option<WorkLink>)
    ensures
        link == work_link_of(front, building, harvesting, repair_stalled),
{
    match front {
        Some(FrontOrder::Build) => if building {
            Some(WorkLink::Site)
        } else {
            None
        },
        Some(FrontOrder::Harvest) => match harvesting {
            Some(source) => Some(WorkLink::Source(source)),
            None => None,
        },
        Some(FrontOrder::Repair) => match repair_stalled {
            Some(stalled) => Some(WorkLink::Mend { stalled: stalled > 0 }),
            None => None,
        },
        _ => None,
    }
}

/// Whether a producer's rally line is drawn: rally lines are the local
/// player's own-units display, so only for its own producers that it has
/// selected, and never on a node with no local player.
pub fn rally_shown(local: Option<u8>, owner: u8, selected: bool) -> (shown: bool)
    ensures
        shown == (local == Some(owner) && selected),
{
    match local {
        Some(player) => player == owner && selected,
        None => false,
    }
}

proof fn lemma_shown_has(bar: Option<StatusBar>, b: StatusBar)
    ensures
        shown(bar).contains(b) <==> bar == Some(b),
{
    if bar == Some(b) {
        assert(shown(bar)[0] == b);
    }
}

/// Every bar reads what it measures: energy and health their current value
/// against their ceiling, the lifetime what is left of it against its limit,
/// and each progress bar its progress against its length, one tick where the
/// length is unknown or zero. And every measure the entity has gets its bar,
/// where a ceiling or a limit is above zero.
pub proof fn law_bars_read_their_measures(facts: BarFacts)
    ensures
        forall|b: StatusBar| #[trigger] bars_of(facts).contains(b) ==> match b.kind {
            BarKind::Energy => facts.energy == Some((b.done, b.whole)) && b.whole > 0,
            BarKind::Health => facts.health == Some((b.done, b.whole)) && b.whole > 0,
            BarKind::Lifetime => facts.lifetime matches Some((age, limit)) && b.whole == limit
                && limit > 0 && b.done == (if age >= limit {
                0
            } else {
                limit - age
            }),
            BarKind::Construction => facts.construction matches Some((progress, time)) && b.done
                == progress && b.whole == (match time {
                Some(t) if t > 0 => t as u64,
                _ => 1,
            }),
            BarKind::Training { queued } => facts.training matches Some((progress, time, q)) && q
                == queued && b.done == progress && b.whole == (match time {
                Some(t) if t > 0 => t as u64,
                _ => 1,
            }),
            BarKind::Research => facts.research matches Some((progress, time)) && b.done
                == progress && b.whole == (match time {
                Some(t) if t > 0 => t as u64,
                _ => 1,
            }),
            BarKind::Morph => facts.morph matches Some((progress, time)) && b.done == progress
                && b.whole == (match time {
                Some(t) if t > 0 => t as u64,
                _ => 1,
            }),
            BarKind::Brood => facts.brood matches Some((progress, period)) && b.done == progress
                && b.whole == (if period > 0 {
                period as u64
            } else {
                1
            }),
        },
        facts.energy matches Some((current, max)) ==> (max > 0 ==> bars_of(facts).contains(
            StatusBar { kind: BarKind::Energy, done: current, whole: max },
        )),
        facts.health matches Some((current, max)) ==> (max > 0 ==> bars_of(facts).contains(
            StatusBar { kind: BarKind::Health, done: current, whole: max },
        )),
        facts.lifetime matches Some((_, limit)) ==> (limit > 0 ==> exists|b: StatusBar| #[trigger]
            bars_of(facts).contains(b) && b.kind == BarKind::Lifetime),
        facts.construction is Some ==> exists|b: StatusBar| #[trigger] bars_of(facts).contains(b)
            && b.kind == BarKind::Construction,
        facts.training matches Some((_, _, queued)) ==> exists|b: StatusBar| #[trigger]
            bars_of(facts).contains(b) && b.kind == (BarKind::Training { queued }),
        facts.research is Some ==> exists|b: StatusBar| #[trigger] bars_of(facts).contains(b)
            && b.kind == BarKind::Research,
        facts.morph is Some ==> exists|b: StatusBar| #[trigger] bars_of(facts).contains(b)
            && b.kind == BarKind::Morph,
        facts.brood is Some ==> exists|b: StatusBar| #[trigger] bars_of(facts).contains(b)
            && b.kind == BarKind::Brood,
{
    broadcast use vstd::seq_lib::lemma_seq_concat_contains_all_elements;

    let e = match facts.energy {
        Some((current, max)) if max > 0 => Some(StatusBar { kind: BarKind::Energy, done: current, whole: max }),
        _ => None,
    };
    let h = match facts.health {
        Some((current, max)) if max > 0 => Some(StatusBar { kind: BarKind::Health, done: current, whole: max }),
        _ => None,
    };
    let l = match facts.lifetime {
        Some((age, limit)) if limit > 0 => Some(
            StatusBar {
                kind: BarKind::Lifetime,
                done: (if age >= limit {
                    0
                } else {
                    limit - age
                }) as u64,
                whole: limit as u64,
            },
        ),
        _ => None,
    };
    let c = match facts.construction {
        Some((progress, time)) => Some(progress_bar(BarKind::Construction, progress, time)),
        None => None,
    };
    let r = match facts.research {
        Some((progress, time)) => Some(progress_bar(BarKind::Research, progress, time)),
        None => None,
    };
    let m = match facts.morph {
        Some((progress, time)) => Some(progress_bar(BarKind::Morph, progress, time)),
        None => None,
    };
    let br = match facts.brood {
        Some((progress, period)) => Some(progress_bar(BarKind::Brood, progress, Some(period))),
        None => None,
    };
    let t = match facts.training {
        Some((progress, time, queued)) => Some(progress_bar(BarKind::Training { queued }, progress, time)),
        None => None,
    };
    let all = bars_of(facts);
    assert(gauge_bars(facts) == shown(e) + shown(h) + shown(l));
    assert(work_bars(facts) == shown(c) + shown(r) + shown(m) + shown(br) + shown(t));
    assert forall|b: StatusBar| #[trigger] all.contains(b) implies (b == e->0 && e is Some) || (
    b == h->0 && h is Some) || (b == l->0 && l is Some) || (b == c->0 && c is Some) || (b == r->0
        && r is Some) || (b == m->0 && m is Some) || (b == br->0 && br is Some) || (b == t->0
        && t is Some) by {
        lemma_shown_has(e, b);
        lemma_shown_has(h, b);
        lemma_shown_has(l, b);
        lemma_shown_has(c, b);
        lemma_shown_has(r, b);
        lemma_shown_has(m, b);
        lemma_shown_has(br, b);
        lemma_shown_has(t, b);
    }
    if e is Some {
        lemma_shown_has(e, e->0);
    }
    if h is Some {
        lemma_shown_has(h, h->0);
    }
    if l is Some {
        lemma_shown_has(l, l->0);
        assert(all.contains(l->0));
    }
    if c is Some {
        lemma_shown_has(c, c->0);
        assert(all.contains(c->0));
    }
    if r is Some {
        lemma_shown_has(r, r->0);
        assert(all.contains(r->0));
    }
    if m is Some {
        lemma_shown_has(m, m->0);
        assert(all.contains(m->0));
    }
    if br is Some {
        lemma_shown_has(br, br->0);
        assert(all.contains(br->0));
    }
    if t is Some {
        lemma_shown_has(t, t->0);
        assert(all.contains(t->0));
    }
}

} // verus!
