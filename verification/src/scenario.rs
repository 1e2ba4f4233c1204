//! The demo story mission: a small map with a single human player whose
//! objectives and win/loss are decided by a scenario script. The mission is
//! data — the built-in scenario below; cells are `(x, y)` with `x` right and
//! `y` down.
use vstd::prelude::*;
use crate::map::{MapData, Placement, PlacementView, Projection, Seat, Terrain};
use crate::text::owned;

verus! {

/// The scenario script. The engine holds the objective list (id + label,
/// fixing the display order); the script only reports which are met and the
/// overall outcome, evaluated on the integer view every `period` ticks inside
/// the deterministic tick loop.
///
/// Win by fielding a barracks and three archers; lose if every unit is gone.
pub const SCRIPT: &'static str = r#"
    define_scenario("build_army", {
        period = 10,
        objectives = {
            { id = "barracks", label = "Build a barracks" },
            { id = "archers", label = "Train 3 archers" },
        },
        check = function(state, view)
            local barracks, archers = 0, 0
            for _, entity in ipairs(view.my_entities) do
                if entity.type_name == "barracks" and not entity.under_construction then
                    barracks = barracks + 1
                elseif entity.type_name == "archer" then
                    archers = archers + 1
                end
            end

            local built = barracks >= 1
            local trained = archers >= 3

            local outcome = "ongoing"
            if built and trained then
                outcome = "victory"
            elseif #view.my_entities == 0 then
                -- Everything is gone; the mission is lost.
                outcome = "defeat"
            end

            return {
                objectives = { barracks = built, archers = trained },
                outcome = outcome,
            }
        end,
    })
"#;

/// The mission's name, which a recording of it is filed under.
pub const MISSION: &'static str = "build_army";

/// The lone human player of this mission.
pub const PLAYER: u8 = 0;

/// The human's base cell; also where the camera opens.
pub const START: (u32, u32) = (6, 6);

/// The mission map's side, in cells.
pub const SIDE: u32 = 32;

/// Gold the mission's mine holds.
pub const MINE_GOLD: u32 = 5000;

/// Wood each tree of the grove holds.
pub const TREE_WOOD: u32 = 400;

/// Gold and wood the player starts with: enough to build the barracks (200
/// gold, 100 wood) and train three archers (240 gold) without harvesting, so
/// the objective is the point rather than the economy.
pub const STARTING_GOLD: u32 = 600;
pub const STARTING_WOOD: u32 = 200;

/// A player the scenario seats.
pub struct ScenarioPlayer {
    pub seat: u8,
    /// Whether a human plays it (the alternative being an AI).
    pub human: bool,
    pub race: Option<String>,
    pub team: Option<u8>,
}

/// A resource a player starts with.
pub struct StartingStock {
    pub player: u8,
    pub resource: String,
    pub amount: u32,
}

/// A scripted mission: who plays it, whose result decides it, its map, what
/// its players start with, and the script that judges it.
pub struct Scenario {
    pub name: String,
    pub players: Vec<ScenarioPlayer>,
    pub judged_player: u8,
    pub map: MapData,
    pub stockpile: Vec<StartingStock>,
    pub script: String,
}

/// What the mission map places, in order: the player's town hall and two
/// peasants, a gold mine within reach, and a grove of four trees.
pub open spec fn mission_placement(k: int) -> PlacementView {
    if k == 0 {
        PlacementView { kind: "town_hall"@, cell: START, owner: Some(PLAYER), amount: None }
    } else if k == 1 {
        PlacementView { kind: "peasant"@, cell: (9, 6), owner: Some(PLAYER), amount: None }
    } else if k == 2 {
        PlacementView { kind: "peasant"@, cell: (9, 7), owner: Some(PLAYER), amount: None }
    } else if k == 3 {
        PlacementView { kind: "gold_mine"@, cell: (13, 6), owner: None, amount: Some(MINE_GOLD) }
    } else {
        let cell = if k == 4 {
            (5u32, 13u32)
        } else if k == 5 {
            (6u32, 13u32)
        } else if k == 6 {
            (5u32, 14u32)
        } else {
            (6u32, 14u32)
        };
        PlacementView { kind: "tree"@, cell, owner: None, amount: Some(TREE_WOOD) }
    }
}

/// Whether a scenario is the built-in mission: one human player on seat 0
/// playing the human race, judged on its own result, on a 32×32 grass map
/// with the player's start, base and workers, a mine and a grove, starting
/// with 600 gold and 200 wood, under the mission script.
pub open spec fn is_builtin_mission(scenario: Scenario) -> bool {
    &&& scenario.name@ == MISSION@
    &&& scenario.players@.len() == 1
    &&& scenario.players@[0].seat == PLAYER
    &&& scenario.players@[0].human
    &&& scenario.players@[0].race matches Some(race) && race@ == "human"@
    &&& scenario.players@[0].team is None
    &&& scenario.judged_player == PLAYER
    &&& scenario.map.name@ == MISSION@
    &&& scenario.map.projection == Projection::Isometric
    &&& scenario.map.width == SIDE
    &&& scenario.map.height == SIDE
    &&& scenario.map.cells@.len() == SIDE * SIDE
    &&& forall|k: int| 0 <= k < SIDE * SIDE ==> #[trigger] scenario.map.cells@[k] == Terrain::Grass
    &&& scenario.map.seats@.len() == 1
    &&& scenario.map.seats@[0] matches Seat::Player { start } && start == START
    &&& scenario.map.placements@.len() == 8
    &&& forall|k: int| 0 <= k < 8 ==> #[trigger] scenario.map.placements@[k]@ == mission_placement(k)
    &&& scenario.stockpile@.len() == 2
    &&& scenario.stockpile@[0].player == PLAYER
    &&& scenario.stockpile@[0].resource@ == "gold"@
    &&& scenario.stockpile@[0].amount == STARTING_GOLD
    &&& scenario.stockpile@[1].player == PLAYER
    &&& scenario.stockpile@[1].resource@ == "wood"@
    &&& scenario.stockpile@[1].amount == STARTING_WOOD
    &&& scenario.script@ == SCRIPT@
}

fn place(kind: &str, cell: (u32, u32), owner: Option<u8>, amount: Option<u32>) -> (placement:
    Placement)
    ensures
        placement@ == (PlacementView { kind: kind@, cell, owner, amount }),
{
    Placement { kind: owned(kind), cell, owner, amount }
}

/// The built-in mission definition.
pub fn builtin_mission() -> (scenario: Scenario)
    ensures
        is_builtin_mission(scenario),
{
    let mut cells: Vec<Terrain> = Vec::new();
    let mut k: u32 = 0;
    while k < SIDE * SIDE
        invariant
            k <= SIDE * SIDE,
            cells@.len() == k,
            forall|j: int| 0 <= j < k ==> #[trigger] cells@[j] == Terrain::Grass,
        decreases SIDE * SIDE - k,
    {
        cells.push(Terrain::Grass);
        k = k + 1;
    }
    let mut seats: Vec<Seat> = Vec::new();
    seats.push(Seat::Player { start: START });
    let mut placements: Vec<Placement> = Vec::new();
    placements.push(place("town_hall", START, Some(PLAYER), None));
    placements.push(place("peasant", (START.0 + 3, START.1), Some(PLAYER), None));
    placements.push(place("peasant", (START.0 + 3, START.1 + 1), Some(PLAYER), None));
    placements.push(place("gold_mine", (13, 6), None, Some(MINE_GOLD)));
    placements.push(place("tree", (5, 13), None, Some(TREE_WOOD)));
    placements.push(place("tree", (6, 13), None, Some(TREE_WOOD)));
    placements.push(place("tree", (5, 14), None, Some(TREE_WOOD)));
    placements.push(place("tree", (6, 14), None, Some(TREE_WOOD)));
    let map = MapData {
        name: owned(MISSION),
        projection: Projection::Isometric,
        width: SIDE,
        height: SIDE,
        cells,
        seats,
        placements,
    };
    let mut players: Vec<ScenarioPlayer> = Vec::new();
    players.push(ScenarioPlayer { seat: PLAYER, human: true, race: Some(owned("human")), team: None });
    let mut stockpile: Vec<StartingStock> = Vec::new();
    stockpile.push(StartingStock { player: PLAYER, resource: owned("gold"), amount: STARTING_GOLD });
    stockpile.push(StartingStock { player: PLAYER, resource: owned("wood"), amount: STARTING_WOOD });
    let scenario = Scenario {
        name: owned(MISSION),
        players,
        judged_player: PLAYER,
        map,
        stockpile,
        script: owned(SCRIPT),
    };
    assert forall|k: int| 0 <= k < 8 implies #[trigger] scenario.map.placements@[k]@
        == mission_placement(k) by {
        if k == 0 {
        } else if k == 1 {
        } else if k == 2 {
        } else if k == 3 {
        } else if k == 4 {
        } else if k == 5 {
        } else if k == 6 {
        } else {
        }
    }
    scenario
}

} // verus!
