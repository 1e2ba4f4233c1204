//! Rebuilding a recorded game so it can be replayed, windowed or without a
//! window.
//!
//! A recording names the game it captured, not the world it produced, so
//! replaying one means rebuilding that game from the demo's own content: the
//! session it was played under, the map it was played on, and the scene it
//! started from. Both entry paths resolve a recording here, so the windowed
//! viewer and the headless runner cannot rebuild different games from the
//! same file.
use vstd::prelude::*;
use crate::lobby::{FinishPolicy, LineupSeat, LocalRole};
use crate::map::{MapData, Projection, is_demo_map, by_name, same_map};
use crate::scenario::{Scenario, builtin_mission, is_builtin_mission, MISSION};
use crate::settings::MovementModel;
use crate::text::{joined3, str_eq, owned};

verus! {

broadcast use vstd::string::group_string_axioms;

/// A skirmish as a recording embeds it: the map it is played on by name, its
/// seats, and the rule that ends it.
pub struct Skirmish {
    pub map: String,
    pub lineup: Vec<LineupSeat>,
    pub finish_policy: FinishPolicy,
}

/// The game a recording captured: a scenario, by its name, or a skirmish,
/// embedded whole.
pub enum RecordedGame {
    Scenario(String),
    Skirmish(Skirmish),
}

/// What a recording's header states of the game: which game it was and the
/// rules its map ran under.
pub struct ReplayHeader {
    pub game: RecordedGame,
    pub movement_model: MovementModel,
    pub projection: Projection,
}

/// What a recording resolves to in the demo's own content: everything needed
/// to rebuild the recorded game.
pub struct ResolvedGame {
    /// The skirmish seats the recorded game seated; `None` for a scenario,
    /// whose own players are its seats.
    pub lineup: Option<Vec<LineupSeat>>,
    /// The name of the map it was played on.
    pub map_name: String,
    /// The finish rule its ticks ran under.
    pub finish_policy: FinishPolicy,
    /// The map as data, under the recorded projection.
    pub data: MapData,
    /// The recorded movement model the map runs under.
    pub movement_model: MovementModel,
    /// The mission a scenario recording names; `None` for a skirmish.
    pub scenario: Option<Scenario>,
}

/// The error a recording naming an unknown scenario gets.
pub open spec fn unknown_scenario_text(name: Seq<char>) -> Seq<char> {
    "the replay needs unknown scenario '"@ + name + "'"@
}

/// The error a recording naming an unknown map gets.
pub open spec fn unknown_map_text(name: Seq<char>) -> Seq<char> {
    "the replay needs unknown map '"@ + name + "'"@
}

/// Whether `resolved` rebuilds the game `header` states: the recorded rules
/// on the map, and — for a scenario — the built-in mission's own map, seats
/// and scripted finish; for a skirmish, the embedded seats and finish rule on
/// the demo map.
pub open spec fn resolves(header: ReplayHeader, resolved: ResolvedGame) -> bool {
    &&& resolved.movement_model == header.movement_model
    &&& resolved.data.projection == header.projection
    &&& match header.game {
        RecordedGame::Scenario(_) => {
            &&& resolved.scenario matches Some(mission) && is_builtin_mission(
                Scenario { map: MapData { projection: Projection::Isometric, ..mission.map }, ..mission },
            ) && same_map(resolved.data, mission.map)
            &&& resolved.lineup is None
            &&& resolved.map_name@ == MISSION@
            &&& resolved.finish_policy == FinishPolicy::Scripted
        },
        RecordedGame::Skirmish(skirmish) => {
            &&& resolved.scenario is None
            &&& resolved.lineup matches Some(lineup) && lineup@ == skirmish.lineup@
            &&& resolved.map_name@ == skirmish.map@
            &&& resolved.finish_policy == skirmish.finish_policy
            &&& is_demo_map(
                MapData {
                    projection: Projection::Isometric,
                    ..resolved.data
                },
            )
        },
    }
}

/// Resolves `header`'s game against the demo's own content — a scenario
/// recording names a scenario the demo must know; a skirmish recording
/// carries its own definition and only needs its map. The rules the game was
/// played under come from the header, so nothing depends on how a menu
/// happens to be set. Errs on a scenario or map this build does not know.
pub fn resolve(header: ReplayHeader) -> (resolved: Result<ResolvedGame, String>)
    ensures
        match header.game {
            RecordedGame::Scenario(name) => if name@ == MISSION@ {
                resolved matches Ok(game) && resolves(header, game)
            } else {
                resolved matches Err(error) && error@ == unknown_scenario_text(name@)
            },
            RecordedGame::Skirmish(skirmish) => if skirmish.map@ == crate::map::NAME@ {
                resolved matches Ok(game) && resolves(header, game)
            } else {
                resolved matches Err(error) && error@ == unknown_map_text(skirmish.map@)
            },
        },
{
    let model = header.movement_model;
    let projection = header.projection;
    match header.game {
        RecordedGame::Scenario(name) => {
            let mut mission = builtin_mission();
            if !str_eq(name.as_str(), mission.name.as_str()) {
                return Err(joined3("the replay needs unknown scenario '", name.as_str(), "'"));
            }
            mission.map.projection = projection;
            let data = mission.map.copied();
            let map_name = owned(mission.map.name.as_str());
            Ok(
                ResolvedGame {
                    lineup: None,
                    map_name,
                    finish_policy: FinishPolicy::Scripted,
                    data,
                    movement_model: model,
                    scenario: Some(mission),
                },
            )
        },
        RecordedGame::Skirmish(skirmish) => {
            match by_name(skirmish.map.as_str()) {
                None => Err(joined3("the replay needs unknown map '", skirmish.map.as_str(), "'")),
                Some(mut data) => {
                    data.projection = projection;
                    Ok(
                        ResolvedGame {
                            lineup: Some(skirmish.lineup),
                            map_name: skirmish.map,
                            finish_policy: skirmish.finish_policy,
                            data,
                            movement_model: model,
                            scenario: None,
                        },
                    )
                },
            }
        },
    }
}

} // verus!
