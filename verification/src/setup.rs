//! The starting scene's rules: which rules the map runs under, the base each
//! seated player starts with and where, what each starts with in stock, and
//! where the camera opens.
use vstd::prelude::*;
use crate::map::Projection;
use crate::settings::{MovementModel, Settings, projection_of};
use crate::text::str_eq;

verus! {

broadcast use vstd::string::group_string_axioms;

/// Gold and wood every seated player starts a skirmish with.
pub const STARTING_GOLD: u32 = 500;
pub const STARTING_WOOD: u32 = 200;

/// The hard supply ceiling every seated player gets: well above what a map's
/// farms can provide, so the headroom players actually play against comes
/// from their standing buildings.
pub const SUPPLY_CEILING: u32 = 200;

/// How many bodies a demo game keeps on the ground at most: well past any
/// ordinary fight, and low enough that killing in bulk in the sandbox shows
/// the oldest making way.
pub const REMAINS_LIMIT: u32 = 200;

/// How many cells to the right of the hall a base's workers stand.
pub const WORKER_OFFSET: u32 = 3;

/// The rules the scene's map runs under: the menu's settings when there are
/// any; otherwise — a headless harness without them — whatever map it
/// installed itself.
pub fn scene_rules(settings: Option<Settings>, installed: (MovementModel, Projection)) -> (rules: (
    MovementModel,
    Projection,
))
    ensures
        rules == match settings {
            Some(chosen) => (chosen.movement_model, projection_of(chosen.view)),
            None => installed,
        },
{
    match settings {
        Some(chosen) => (chosen.movement_model, chosen.view.projection()),
        None => installed,
    }
}

/// The hall and worker types a race's base is made of: the humans' town hall
/// and peasants, and for every other race the great hall and peons.
pub open spec fn base_types(race: Seq<char>) -> (Seq<char>, Seq<char>) {
    if race == "human"@ {
        ("town_hall"@, "peasant"@)
    } else {
        ("great_hall"@, "peon"@)
    }
}

/// What a player's starting base places, in order: its hall on the start
/// cell, and two workers three cells to the right, one above the other.
pub open spec fn base_layout(race: Seq<char>, start: (u32, u32)) -> Seq<(Seq<char>, (int, int))> {
    let (hall, worker) = base_types(race);
    seq![
        (hall, (start.0 as int, start.1 as int)),
        (worker, (start.0 + WORKER_OFFSET, start.1 as int)),
        (worker, (start.0 + WORKER_OFFSET, start.1 + 1)),
    ]
}

/// The starting base of a player of `race` whose start point is `start`.
pub fn base_for(race: &str, start: (u32, u32)) -> (base: Vec<(&'static str, (u32, u32))>)
    requires
        start.0 + WORKER_OFFSET <= u32::MAX,
        start.1 + 1 <= u32::MAX,
    ensures
        base@.map_values(|entry: (&'static str, (u32, u32))| (entry.0@, (entry.1.0 as int, entry.1.1 as int)))
            == base_layout(race@, start),
{
    let human = str_eq(race, "human");
    let (hall, worker): (&'static str, &'static str) = if human {
        ("town_hall", "peasant")
    } else {
        ("great_hall", "peon")
    };
    let mut base: Vec<(&'static str, (u32, u32))> = Vec::new();
    base.push((hall, start));
    base.push((worker, (start.0 + WORKER_OFFSET, start.1)));
    base.push((worker, (start.0 + WORKER_OFFSET, start.1 + 1)));
    assert(base@.map_values(|entry: (&'static str, (u32, u32))| (entry.0@, (entry.1.0 as int, entry.1.1 as int)))
        =~= base_layout(race@, start));
    base
}

/// How many cells past a start point, right and down, the camera opens.
pub const FRAME_OFFSET: u32 = 5;

/// The start point the camera opens on: the local player's own; for a node
/// with no local player — an observer's, a replay's — the first seated
/// player's that has one, so a watcher starts where the action starts; none
/// (the middle of the map, the last resort) for a lineup with no start points
/// at all. `seats` holds each seated player's start point, in seat order.
pub open spec fn framed_start(
    local_start: Option<(u32, u32)>,
    seats: Seq<Option<(u32, u32)>>,
) -> Option<(u32, u32)> {
    match local_start {
        Some(start) => Some(start),
        None => if exists|k: int| 0 <= k < seats.len() && seats[k] is Some {
            seats[choose|k: int|
                0 <= k < seats.len() && seats[k] is Some && forall|j: int|
                    0 <= j < k ==> seats[j] is None]
        } else {
            None
        },
    }
}

/// Picks the start point the camera opens on.
pub fn frame_start(local_start: Option<(u32, u32)>, seats: &Vec<Option<(u32, u32)>>) -> (start:
    Option<(u32, u32)>)
    ensures
        start == framed_start(local_start, seats@),
{
    if local_start.is_some() {
        return local_start;
    }
    let mut k: usize = 0;
    while k < seats.len()
        invariant
            k <= seats@.len(),
            local_start is None,
            forall|j: int| 0 <= j < k ==> seats@[j] is None,
        decreases seats@.len() - k,
    {
        if seats[k].is_some() {
            proof {
                let at = choose|i: int|
                    0 <= i < seats@.len() && seats@[i] is Some && forall|j: int|
                        0 <= j < i ==> seats@[j] is None;
                assert(0 <= at < seats@.len() && seats@[at] is Some && forall|j: int|
                    0 <= j < at ==> seats@[j] is None) by {
                    assert(0 <= k < seats@.len() && seats@[k as int] is Some && forall|j: int|
                        0 <= j < k ==> seats@[j] is None);
                }
                if at < k {
                    assert(seats@[at] is None);
                }
                if at > k {
                    assert(seats@[k as int] is None);
                }
            }
            return seats[k];
        }
        k = k + 1;
    }
    None
}

} // verus!
