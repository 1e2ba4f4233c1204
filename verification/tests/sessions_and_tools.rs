use ferrets_demo::ai::{
    elves_ai, human_ai, race_brain, seat_brain, terran_ai, BOSS_AI_SCRIPT, COMMON_AI, ELVES_AI,
    HUMAN_AI, TERRAN_AI,
};
use ferrets_demo::debug::{
    cell_label, hovered, mode_label, model_label, next_layer, order_line, selection_label,
    DebugState, Footprint, LineEnd, OrderHue, QueuedOrder, NAMED_SELECTION,
};
use ferrets_demo::hud::Verdict;
use ferrets_demo::input::{InputMode, TargetedOrder};
use ferrets_demo::lobby::{EliminationScope, FinishPolicy, LineupSeat, SeatPlan, Race};
use ferrets_demo::map::{Projection, Terrain};
use ferrets_demo::playback::{resolve, RecordedGame, ReplayHeader, Skirmish};
use ferrets_demo::replay::{
    judge_run, record_as, replay_file_name, teardown_note, version_warning, RecordAs, RunVerdict,
};
use ferrets_demo::scenario::{builtin_mission, SCRIPT};
use ferrets_demo::settings::{MovementModel, Settings, View};
use ferrets_demo::setup::{base_for, frame_start, scene_rules};

#[test]
fn a_game_is_recorded_by_its_one_definition() {
    assert_eq!(record_as(true, false), RecordAs::ScenarioByName);
    assert_eq!(record_as(false, true), RecordAs::SkirmishWhole);
}

#[test]
fn teardown_notes_name_desyncs_and_aborts() {
    assert_eq!(teardown_note(Some(Verdict::Desynchronization { tick: 42 })), " (desync at tick 42)");
    assert_eq!(teardown_note(Some(Verdict::Aborted)), " (aborted)");
    assert_eq!(teardown_note(Some(Verdict::Draw)), "");
    assert_eq!(teardown_note(None), "");
}

#[test]
fn replay_files_are_named_by_their_stamp() {
    assert_eq!(replay_file_name(1700000000123), "1700000000123.frep");
    assert_eq!(replay_file_name(0), "0.frep");
}

#[test]
fn a_foreign_engine_build_is_warned_about() {
    assert_eq!(version_warning("0.3.0", "0.3.0"), None);
    assert_eq!(
        version_warning("0.2.9", "0.3.0"),
        Some("warning: replay recorded by engine 0.2.9 but this build is 0.3.0; it may not replay faithfully".to_string())
    );
}

#[test]
fn headless_runs_are_judged() {
    assert_eq!(judge_run(Some(17), true), RunVerdict::Diverged { at: 17 });
    assert_eq!(judge_run(None, true), RunVerdict::Verified);
    assert_eq!(judge_run(None, false), RunVerdict::Incomplete);
}

#[test]
fn the_builtin_mission() {
    let mission = builtin_mission();
    assert_eq!(mission.name, "build_army");
    assert_eq!(mission.players.len(), 1);
    assert_eq!(mission.players[0].seat, 0);
    assert!(mission.players[0].human);
    assert_eq!(mission.players[0].race.as_deref(), Some("human"));
    assert_eq!(mission.judged_player, 0);
    assert_eq!(mission.map.width, 32);
    assert_eq!(mission.map.cells.len(), 32 * 32);
    assert!(mission.map.cells.iter().all(|c| *c == Terrain::Grass));
    let kinds: Vec<&str> = mission.map.placements.iter().map(|p| p.kind.as_str()).collect();
    assert_eq!(kinds, vec!["town_hall", "peasant", "peasant", "gold_mine", "tree", "tree", "tree", "tree"]);
    assert_eq!(mission.map.placements[1].cell, (9, 6));
    assert_eq!(mission.map.placements[2].cell, (9, 7));
    assert_eq!(mission.stockpile[0].amount, 600);
    assert_eq!(mission.stockpile[1].resource, "wood");
    assert_eq!(mission.stockpile[1].amount, 200);
    assert_eq!(mission.script, SCRIPT);
    assert!(SCRIPT.contains("define_scenario(\"build_army\""));
}

#[test]
fn a_scenario_recording_resolves_to_the_mission_under_its_rules() {
    let header = ReplayHeader {
        game: RecordedGame::Scenario("build_army".to_string()),
        movement_model: MovementModel::Cell,
        projection: Projection::Orthogonal,
    };
    let resolved = resolve(header).expect("the mission is known");
    assert!(resolved.lineup.is_none());
    assert_eq!(resolved.map_name, "build_army");
    assert_eq!(resolved.finish_policy, FinishPolicy::Scripted);
    assert_eq!(resolved.movement_model, MovementModel::Cell);
    assert_eq!(resolved.data.projection, Projection::Orthogonal);
    assert_eq!(resolved.data.placements.len(), 8);
    let mission = resolved.scenario.expect("the mission comes along");
    assert_eq!(mission.map.projection, Projection::Orthogonal);
}

#[test]
fn a_skirmish_recording_resolves_to_the_demo_map() {
    let lineup = vec![
        LineupSeat::Player(SeatPlan::Human { race: Race::Orc, team: None }),
        LineupSeat::Environment,
    ];
    let header = ReplayHeader {
        game: RecordedGame::Skirmish(Skirmish {
            map: "demo".to_string(),
            lineup,
            finish_policy: FinishPolicy::LastStanding { elimination: EliminationScope::Side },
        }),
        movement_model: MovementModel::Continuous,
        projection: Projection::Isometric,
    };
    let resolved = resolve(header).expect("the demo map is known");
    assert!(resolved.scenario.is_none());
    assert_eq!(resolved.lineup.map(|seats| seats.len()), Some(2));
    assert_eq!(resolved.map_name, "demo");
    assert_eq!(resolved.data.width, 96);
    assert_eq!(resolved.finish_policy, FinishPolicy::LastStanding { elimination: EliminationScope::Side });
}

#[test]
fn unknown_recordings_are_refused() {
    let header = ReplayHeader {
        game: RecordedGame::Scenario("siege".to_string()),
        movement_model: MovementModel::Cell,
        projection: Projection::Isometric,
    };
    assert_eq!(resolve(header).err(), Some("the replay needs unknown scenario 'siege'".to_string()));
    let header = ReplayHeader {
        game: RecordedGame::Skirmish(Skirmish {
            map: "islands".to_string(),
            lineup: Vec::new(),
            finish_policy: FinishPolicy::Endless,
        }),
        movement_model: MovementModel::Cell,
        projection: Projection::Isometric,
    };
    assert_eq!(resolve(header).err(), Some("the replay needs unknown map 'islands'".to_string()));
}

#[test]
fn settings_and_views() {
    let settings = Settings::default();
    assert_eq!(settings.movement_model, MovementModel::Continuous);
    assert_eq!(settings.view, View::IsometricSquare);
    assert_eq!(View::IsometricDiamond.projection(), Projection::Isometric);
    assert_eq!(View::Orthogonal.projection(), Projection::Orthogonal);
    assert!(View::IsometricDiamond.diamond());
    assert!(!View::IsometricSquare.diamond());
    assert_eq!(
        scene_rules(Some(Settings { movement_model: MovementModel::Cell, view: View::Orthogonal }), (MovementModel::Continuous, Projection::Isometric)),
        (MovementModel::Cell, Projection::Orthogonal)
    );
    assert_eq!(scene_rules(None, (MovementModel::Cell, Projection::Isometric)), (MovementModel::Cell, Projection::Isometric));
}

#[test]
fn starting_bases_by_race() {
    assert_eq!(base_for("human", (12, 12)), vec![("town_hall", (12, 12)), ("peasant", (15, 12)), ("peasant", (15, 13))]);
    assert_eq!(base_for("orc", (78, 78)), vec![("great_hall", (78, 78)), ("peon", (81, 78)), ("peon", (81, 79))]);
}

#[test]
fn the_camera_opens_on_a_start_point() {
    assert_eq!(frame_start(Some((12, 12)), &vec![Some((78, 78))]), Some((12, 12)));
    assert_eq!(frame_start(None, &vec![None, Some((78, 78)), Some((12, 78))]), Some((78, 78)));
    assert_eq!(frame_start(None, &vec![None]), None);
}

#[test]
fn the_debug_overlay_starts_on_the_ground_layer() {
    let state = DebugState::initial();
    assert!(state.grid);
    assert_eq!(state.layer, "ground");
    assert_eq!(state.spawn_type, "archer");
}

#[test]
fn layers_cycle_in_name_order() {
    let names = vec!["air".to_string(), "ground".to_string(), "water".to_string()];
    assert_eq!(next_layer(&names, "ground"), Some("water".to_string()));
    assert_eq!(next_layer(&names, "water"), Some("air".to_string()));
    assert_eq!(next_layer(&names, "lava"), Some("air".to_string()));
    assert_eq!(next_layer(&Vec::new(), "ground"), None);
}

#[test]
fn the_readout_names_a_handful_then_counts() {
    assert_eq!(selection_label(&Vec::new()), "-");
    assert_eq!(selection_label(&vec![3, 17]), "#3 #17");
    let six: Vec<u64> = (1..=NAMED_SELECTION as u64).collect();
    assert_eq!(selection_label(&six), "#1 #2 #3 #4 #5 #6");
    let seven: Vec<u64> = (1..=7).collect();
    assert_eq!(selection_label(&seven), "7 units");
    assert_eq!(mode_label(&InputMode::Normal), "normal");
    assert_eq!(mode_label(&InputMode::PlacingBuild("farm".to_string())), "placing");
    assert_eq!(mode_label(&InputMode::Targeting(TargetedOrder::Guard)), "targeting");
    assert_eq!(model_label(MovementModel::Cell), "cell");
    assert_eq!(model_label(MovementModel::Continuous), "continuous");
    assert_eq!(cell_label(Some((4, 9))), "(4,9)");
    assert_eq!(cell_label(None), "-");
}

#[test]
fn hover_finds_the_first_covering_footprint() {
    let feet = vec![
        Footprint { x: 0, y: 0, width: 2, height: 2 },
        Footprint { x: 1, y: 1, width: 3, height: 3 },
    ];
    assert_eq!(hovered(&feet, 1, 1), Some(0));
    assert_eq!(hovered(&feet, 3, 3), Some(1));
    assert_eq!(hovered(&feet, 4, 4), None);
}

#[test]
fn order_lines_by_kind() {
    assert_eq!(order_line(QueuedOrder::Move), Some((OrderHue::Move, LineEnd::Footprint)));
    assert_eq!(order_line(QueuedOrder::AttackEntity), Some((OrderHue::Combat, LineEnd::Entity)));
    assert_eq!(order_line(QueuedOrder::Patrol), Some((OrderHue::Combat, LineEnd::PatrolLeg)));
    assert_eq!(order_line(QueuedOrder::Repair), Some((OrderHue::Repair, LineEnd::Entity)));
    assert_eq!(order_line(QueuedOrder::Unload { at_place: true }), Some((OrderHue::Guard, LineEnd::Cell)));
    assert_eq!(order_line(QueuedOrder::Unload { at_place: false }), None);
    assert_eq!(order_line(QueuedOrder::Morph), None);
}

#[test]
fn race_brains_share_the_chassis() {
    assert_eq!(human_ai(), format!("{COMMON_AI}\n{HUMAN_AI}"));
    assert_eq!(elves_ai(), format!("{COMMON_AI}\n{ELVES_AI}"));
    assert_eq!(terran_ai(), format!("{COMMON_AI}\n{TERRAN_AI}"));
    assert_eq!(race_brain("human"), Some(human_ai()));
    assert_eq!(race_brain("naga"), None);
    assert_eq!(seat_brain(true, "human"), Some(BOSS_AI_SCRIPT.to_string()));
    assert_eq!(seat_brain(false, "terran"), Some(terran_ai()));
    assert_eq!(seat_brain(false, "naga"), None);
}
