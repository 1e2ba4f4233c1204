use ferrets_demo::hud::{
    card_refresh, card_swatch, command_card, cooldown_label, economy_line, final_report,
    game_over_message, group_chips, help_line, objectives_checklist, pretty_name,
    replay_note, research_under_way, resources_line, roster, selection_readout, side_plays_on,
    spectator_note, spaced, stats_entry, supply_readout, CardAction, CardFacts, CardRefresh,
    CardSource, FinalRow, GatedCard, InspectedFacts, KindFlow, Onlooker, Pointer,
    ProducerFacts, RosterSeat, Swatch, Tally, Verdict, Winner,
};
use ferrets_demo::time::SpeedStep;

#[test]
fn pretty_name_capitalises_each_word() {
    assert_eq!(pretty_name("town_hall"), "Town Hall");
    assert_eq!(pretty_name("peasant"), "Peasant");
    assert_eq!(pretty_name("ancient_of_war_uprooted"), "Ancient Of War Uprooted");
}

#[test]
fn pretty_name_keeps_empty_words() {
    assert_eq!(pretty_name(""), "");
    assert_eq!(pretty_name("a__b"), "A  B");
    assert_eq!(pretty_name("_x"), " X");
    assert_eq!(pretty_name("x_"), "X ");
}

#[test]
fn spaced_replaces_underscores_only() {
    assert_eq!(spaced("hold_position"), "hold position");
    assert_eq!(spaced("aggressive"), "aggressive");
}

#[test]
fn cooldown_label_rounds_seconds_up() {
    assert_eq!(cooldown_label("Heal".to_string(), 0), "Heal");
    assert_eq!(cooldown_label("Heal".to_string(), 1), "Heal (1s)");
    assert_eq!(cooldown_label("Heal".to_string(), 20), "Heal (1s)");
    assert_eq!(cooldown_label("Heal".to_string(), 21), "Heal (2s)");
    assert_eq!(cooldown_label("Heal".to_string(), 400), "Heal (20s)");
}

#[test]
fn group_chips_skip_empty_groups_and_map_keys() {
    let counts = vec![0, 3, 0, 0, 0, 0, 0, 0, 0, 5];
    let chips = group_chips(&counts);
    assert_eq!(chips.len(), 2);
    assert_eq!(chips[0].group, 1);
    assert_eq!(chips[0].label, "2: 3");
    assert_eq!(chips[1].group, 9);
    assert_eq!(chips[1].label, "0: 5");
    assert!(group_chips(&vec![0; 10]).is_empty());
}

#[test]
fn replay_note_orders_its_cases() {
    assert_eq!(replay_note(Some((Some(12), true)), true, SpeedStep::Fast), "Replay diverged at tick 12");
    assert_eq!(replay_note(Some((None, true)), true, SpeedStep::Fast), "Replay ended");
    assert_eq!(replay_note(Some((None, false)), true, SpeedStep::Fast), "Paused");
    assert_eq!(replay_note(None, false, SpeedStep::Fast), "Speed 2x");
    assert_eq!(replay_note(None, false, SpeedStep::Slowest), "Speed 0.25x");
    assert_eq!(replay_note(None, false, SpeedStep::Normal), "");
}

#[test]
fn resource_and_supply_lines() {
    assert_eq!(resources_line(Some((120, 40))), "Gold: 120   Wood: 40");
    assert_eq!(resources_line(None), "");
    assert_eq!(supply_readout(Some((10, 10))), Some(("Supply: 10/10".to_string(), true)));
    assert_eq!(supply_readout(Some((3, 10))), Some(("Supply: 3/10".to_string(), false)));
    assert_eq!(supply_readout(Some((12, 10))), Some(("Supply: 12/10".to_string(), true)));
    assert_eq!(supply_readout(None), None);
}

#[test]
fn help_line_prefers_skills_then_building_then_training() {
    assert!(help_line(None).starts_with("LMB select"));
    let trains = ProducerFacts { trains: true, builds: false, has_skills: false };
    assert_eq!(help_line(Some(trains)), "Train: click a command-card button   |   RMB set rally (on self clears)");
    let both = ProducerFacts { trains: true, builds: true, has_skills: false };
    assert_eq!(help_line(Some(both)), "Build: click a command-card button   |   click the map to place");
    let all = ProducerFacts { trains: true, builds: true, has_skills: true };
    assert_eq!(help_line(Some(all)), "Skill: click a command-card button");
    let none = ProducerFacts { trains: false, builds: false, has_skills: false };
    assert!(help_line(Some(none)).starts_with("LMB select"));
}

fn grunt() -> InspectedFacts {
    InspectedFacts {
        name: "grunt".to_string(),
        id: 7,
        health: Some((30, 40)),
        attack: Some(5),
        speed: Some("1.50".to_string()),
        carrying: Some((10, "gold".to_string())),
        source_left: None,
        stance: Some("hold_position".to_string()),
        energy: None,
        buffs: vec![("bloodlust".to_string(), 1), ("slow".to_string(), 2)],
        under_construction: false,
        disabled: true,
    }
}

#[test]
fn selection_readout_names_one_entity() {
    let facts = grunt();
    assert_eq!(
        selection_readout(1, Some(&facts)),
        "Grunt #7   HP 30/40   attack 5   speed 1.50   carrying 10 gold   stance: hold position   Bloodlust, Slow x2   disabled"
    );
}

#[test]
fn selection_readout_construction_wins_over_disabled() {
    let mut facts = grunt();
    facts.under_construction = true;
    facts.buffs.clear();
    facts.carrying = None;
    facts.source_left = Some((4000, "gold".to_string()));
    facts.energy = Some(50);
    assert_eq!(
        selection_readout(1, Some(&facts)),
        "Grunt #7   HP 30/40   attack 5   speed 1.50   4000 gold left   stance: hold position   energy 50   under construction"
    );
}

#[test]
fn selection_readout_counts_or_blanks() {
    assert_eq!(selection_readout(0, None), "");
    assert_eq!(selection_readout(1, None), "");
    assert_eq!(selection_readout(3, None), "3 units selected");
}

#[test]
fn objectives_checklist_marks_done_rows() {
    let objectives = vec![
        (true, "Build a barracks".to_string()),
        (false, "Train 3 archers".to_string()),
    ];
    assert_eq!(objectives_checklist(&objectives), "Objectives:\n[x] Build a barracks\n[ ] Train 3 archers");
    assert_eq!(objectives_checklist(&Vec::new()), "");
}

#[test]
fn spectator_note_cases() {
    assert_eq!(spectator_note(true, Onlooker::Observer { side: None, team: None }), "");
    assert_eq!(
        spectator_note(false, Onlooker::Observer { side: None, team: None }),
        "Observing - everything (Tab: next view)"
    );
    assert_eq!(
        spectator_note(false, Onlooker::Observer { side: Some(2), team: Some(1) }),
        "Observing - team 1's view (Tab: next view)"
    );
    assert_eq!(
        spectator_note(false, Onlooker::Observer { side: Some(2), team: None }),
        "Observing - player 2's view (Tab: next view)"
    );
    assert_eq!(
        spectator_note(false, Onlooker::Eliminated { side_plays_on: true }),
        "Eliminated - spectating (your side plays on)"
    );
    assert_eq!(spectator_note(false, Onlooker::Eliminated { side_plays_on: false }), "Defeat - spectating");
    assert_eq!(spectator_note(false, Onlooker::Playing), "");
}

#[test]
fn side_plays_on_needs_a_live_ally() {
    assert!(!side_plays_on(&vec![(false, true), (true, false)]));
    assert!(side_plays_on(&vec![(false, true), (true, true)]));
    assert!(!side_plays_on(&Vec::new()));
}

#[test]
fn roster_leaves_out_the_environment() {
    let seats = vec![
        RosterSeat { id: 0, team: Some(1), environment: false, dropped: false, eliminated: false },
        RosterSeat { id: 1, team: None, environment: false, dropped: false, eliminated: true },
        RosterSeat { id: 2, team: None, environment: false, dropped: true, eliminated: true },
        RosterSeat { id: 4, team: None, environment: true, dropped: false, eliminated: false },
    ];
    assert_eq!(roster(&seats, Some(0)), "P0 [T1]: playing (you)\nP1: eliminated\nP2: left");
    assert_eq!(roster(&seats, None), "P0 [T1]: playing\nP1: eliminated\nP2: left");
}

#[test]
fn game_over_banner() {
    assert_eq!(game_over_message(None, Some(true)), "");
    assert_eq!(game_over_message(Some(Verdict::Draw), None), "Draw");
    assert_eq!(game_over_message(Some(Verdict::Desynchronization { tick: 5 }), None), "Desynchronization!");
    assert_eq!(game_over_message(Some(Verdict::Aborted), Some(true)), "Aborted");
    assert_eq!(game_over_message(Some(Verdict::Defeat), Some(true)), "Defeat");
    let team = Verdict::Victory { winner: Winner::Team(2) };
    assert_eq!(game_over_message(Some(team), None), "Team 2 wins");
    assert_eq!(game_over_message(Some(Verdict::Victory { winner: Winner::Player(3) }), None), "Player 3 wins");
    assert_eq!(game_over_message(Some(team), Some(true)), "Victory!");
    assert_eq!(game_over_message(Some(team), Some(false)), "Defeat");
}

fn flow(kind: &str, gathered: u64, spent: u64, refunded: u64) -> KindFlow {
    KindFlow { kind: kind.to_string(), gathered, spent, refunded }
}

#[test]
fn economy_line_lists_each_kind() {
    assert_eq!(economy_line(&Vec::new()), "no economy");
    let flows = vec![flow("gold", 100, 50, 0), flow("wood", 20, 0, 5)];
    assert_eq!(economy_line(&flows), "gold +100/-50, wood +20/-0 (back 5)");
}

fn tally(flows: Vec<KindFlow>) -> Tally {
    Tally {
        produced: vec![2, 3],
        lost: vec![1],
        killed: Vec::new(),
        dealt: 40,
        taken: 12,
        research: 1,
        skills: 2,
        flows,
    }
}

#[test]
fn stats_entry_sums_the_counts() {
    assert_eq!(
        stats_entry(1, true, &tally(Vec::new())),
        "P1 (you): built 5, lost 1, killed 0, damage 40/12, research 1, skills 2\n    no economy"
    );
}

#[test]
fn final_report_waits_for_the_end() {
    let rows = vec![
        FinalRow { id: 0, you: false, tally: tally(vec![flow("gold", 7, 3, 0)]) },
        FinalRow { id: 1, you: true, tally: tally(Vec::new()) },
    ];
    assert_eq!(final_report(false, &rows), "");
    assert_eq!(
        final_report(true, &rows),
        "P0: built 5, lost 1, killed 0, damage 40/12, research 1, skills 2\n    gold +7/-3\nP1 (you): built 5, lost 1, killed 0, damage 40/12, research 1, skills 2\n    no economy"
    );
}

#[test]
fn command_card_lays_out_every_button() {
    let source = CardSource {
        trains: vec!["peasant".to_string()],
        builds: vec!["farm".to_string(), "town_hall".to_string()],
        researches: vec![(7, "iron_weapons".to_string())],
        skills: vec![(3, "heal".to_string())],
        morphs: vec!["gryphon_aloft".to_string()],
        transports: true,
    };
    let buttons = command_card(&source);
    let labels: Vec<&str> = buttons.iter().map(|b| b.label.as_str()).collect();
    assert_eq!(
        labels,
        vec!["Peasant", "Farm", "Town Hall", "Iron Weapons", "Heal", "Gryphon Aloft", "Load", "Unload", "Unload To"]
    );
    let actions: Vec<CardAction> = buttons.iter().map(|b| b.action).collect();
    assert_eq!(
        actions,
        vec![
            CardAction::Train(0),
            CardAction::Build(0),
            CardAction::Build(1),
            CardAction::Research(7),
            CardAction::Skill(3),
            CardAction::Morph(0),
            CardAction::Load,
            CardAction::Unload,
            CardAction::UnloadTo,
        ]
    );
    let swatches: Vec<Swatch> = buttons.iter().map(|b| b.swatch).collect();
    assert_eq!(
        swatches,
        vec![
            Swatch::ButtonNormal,
            Swatch::BuildNormal,
            Swatch::BuildNormal,
            Swatch::ResearchNormal,
            Swatch::SkillNormal,
            Swatch::SkillNormal,
            Swatch::ButtonNormal,
            Swatch::ButtonNormal,
            Swatch::ButtonNormal,
        ]
    );
}

#[test]
fn command_card_is_empty_for_a_plain_unit() {
    let source = CardSource {
        trains: Vec::new(),
        builds: Vec::new(),
        researches: Vec::new(),
        skills: Vec::new(),
        morphs: Vec::new(),
        transports: false,
    };
    assert!(command_card(&source).is_empty());
}

#[test]
fn card_refresh_decisions() {
    assert_eq!(card_refresh(false, true, true, Some(3)), CardRefresh::Clear);
    assert_eq!(card_refresh(true, false, false, Some(3)), CardRefresh::Keep);
    assert_eq!(card_refresh(true, true, false, Some(3)), CardRefresh::Rebuild(3));
    assert_eq!(card_refresh(true, false, true, Some(4)), CardRefresh::Rebuild(4));
    assert_eq!(card_refresh(true, true, false, None), CardRefresh::Clear);
}

#[test]
fn card_swatch_greys_out_refused_actions() {
    let ready = CardFacts { requirements_met: true, starts: true, completed: false, under_way: false, operating: true };
    assert_eq!(card_swatch(GatedCard::Train, ready, Pointer::Away), Swatch::ButtonNormal);
    assert_eq!(card_swatch(GatedCard::Train, ready, Pointer::Pressed), Swatch::ButtonHovered);
    assert_eq!(card_swatch(GatedCard::Build, ready, Pointer::Hovered), Swatch::BuildHovered);
    assert_eq!(card_swatch(GatedCard::Research, ready, Pointer::Away), Swatch::ResearchNormal);
    let done = CardFacts { completed: true, ..ready };
    assert_eq!(card_swatch(GatedCard::Research, done, Pointer::Away), Swatch::CardDisabled);
    let busy = CardFacts { under_way: true, ..ready };
    assert_eq!(card_swatch(GatedCard::Research, busy, Pointer::Hovered), Swatch::CardDisabled);
    assert_eq!(card_swatch(GatedCard::Train, done, Pointer::Away), Swatch::ButtonNormal);
    let idle = CardFacts { operating: false, ..ready };
    assert_eq!(card_swatch(GatedCard::Skill, idle, Pointer::Away), Swatch::CardDisabled);
    assert_eq!(card_swatch(GatedCard::PlayerSkill, idle, Pointer::Away), Swatch::SkillNormal);
    let blocked = CardFacts { starts: false, ..ready };
    assert_eq!(card_swatch(GatedCard::Build, blocked, Pointer::Away), Swatch::CardDisabled);
    let unmet = CardFacts { requirements_met: false, ..ready };
    assert_eq!(card_swatch(GatedCard::PlayerSkill, unmet, Pointer::Away), Swatch::CardDisabled);
}

#[test]
fn research_under_way_looks_at_the_players_queues() {
    let entities = vec![(0, vec![None, Some(4)]), (1, vec![Some(7)])];
    assert!(research_under_way(&entities, 0, 4));
    assert!(!research_under_way(&entities, 0, 7));
    assert!(research_under_way(&entities, 1, 7));
    assert!(!research_under_way(&entities, 2, 7));
}
