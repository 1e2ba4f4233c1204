use ferrets_demo::input::{
    entity_at, group_command, group_key, next_stance, primary, GroupCommand, Pickable,
    SelectMode, Stance,
};
use ferrets_demo::lobby::{
    can_start, claim_local, connect_step, press, ButtonOutcome, LobbyButton, dial_addr, field_view, next_team, parse_port, parse_tcp_port,
    parse_udp_port, rebind_step, team_label, ConnectAction, LinkState, LobbyConfig, LobbyMode,
    LocalRole, Race, RebindAction, SlotKind, CONNECT_RETRY_FRAMES, TCP_PORT,
};
use ferrets_demo::lobby_view::{hosting_status, slot_line, title};
use ferrets_demo::map::{by_name, data, in_lake, in_river, Seat, Terrain, START_POINTS};
use ferrets_demo::time::{GameSpeed, SpeedStep};

const STEPS: [SpeedStep; 6] = [
    SpeedStep::Slowest,
    SpeedStep::Slow,
    SpeedStep::Normal,
    SpeedStep::Fast,
    SpeedStep::Faster,
    SpeedStep::Fastest,
];

#[test]
fn speed_steps_read_and_scale() {
    let labels: Vec<&str> = STEPS.iter().map(|s| s.label()).collect();
    assert_eq!(labels, vec!["0.25x", "0.5x", "1x", "2x", "4x", "8x"]);
    let factors: Vec<(u64, u64)> = STEPS.iter().map(|s| s.factor()).collect();
    assert_eq!(factors, vec![(1, 4), (1, 2), (1, 1), (2, 1), (4, 1), (8, 1)]);
    let fast: Vec<bool> = STEPS.iter().map(|s| s.fast_forward()).collect();
    assert_eq!(fast, vec![false, false, false, false, true, true]);
    assert_eq!(SpeedStep::default(), SpeedStep::Normal);
}

#[test]
fn speed_steps_clamp_at_the_ends() {
    assert_eq!(SpeedStep::Fastest.faster(), SpeedStep::Fastest);
    assert_eq!(SpeedStep::Slowest.slower(), SpeedStep::Slowest);
    assert_eq!(SpeedStep::Normal.faster(), SpeedStep::Fast);
    assert_eq!(SpeedStep::Normal.slower(), SpeedStep::Slow);
}

#[test]
fn a_step_up_is_undone_by_a_step_down() {
    for step in &STEPS[..5] {
        assert_eq!(step.faster().slower(), *step);
    }
    for step in &STEPS[1..] {
        assert_eq!(step.slower().faster(), *step);
    }
}

#[test]
fn every_rung_is_found_again_from_its_speed() {
    for step in &STEPS {
        assert_eq!(SpeedStep::of(step.speed()), *step);
        let (n, d) = step.factor();
        assert_eq!((20 * n) % d, 0);
    }
}

#[test]
fn the_lake_is_a_disc_of_radius_nine() {
    assert!(in_lake(48, 48));
    assert!(in_lake(57, 48));
    assert!(in_lake(48, 39));
    assert!(!in_lake(58, 48));
    assert!(!in_lake(55, 55));
    assert!(in_lake(54, 54));
    assert!(!in_lake(0, 0));
}

#[test]
fn rivers_run_the_middle_axes_with_fords() {
    assert!(in_river(48, 0));
    assert!(in_river(48, 17));
    assert!(!in_river(48, 18));
    assert!(!in_river(48, 20));
    assert!(in_river(48, 21));
    assert!(!in_river(48, 48));
    assert!(in_river(0, 48));
    assert!(!in_river(76, 48));
    assert!(in_river(95, 48));
    assert!(!in_river(10, 10));
}

#[test]
fn the_demo_map_data() {
    let map = data();
    assert_eq!(map.name, "demo");
    assert_eq!(map.width, 96);
    assert_eq!(map.height, 96);
    assert_eq!(map.cells.len(), 96 * 96);
    assert_eq!(map.seats.len(), 5);
    assert!(matches!(map.seats[4], Seat::Environment));
    assert_eq!(map.placements.len(), 32);
    for (x, y) in START_POINTS {
        assert_eq!(map.cells[(y * 96 + x) as usize], Terrain::Grass);
    }
    assert_eq!(map.cells[48 * 96 + 48], Terrain::Water);
    assert_eq!(map.placements[0].kind, "gold_mine");
    assert_eq!(map.placements[0].amount, Some(5000));
    assert_eq!(map.placements[28].kind, "sea_fortress");
    assert_eq!(map.placements[28].owner, Some(4));
    assert_eq!(map.placements[31].kind, "ship");
    assert!(by_name("demo").is_some());
    assert!(by_name("build_army").is_none());
}

#[test]
fn ports_parse_as_sixteen_bit_numbers() {
    assert_eq!(parse_port("8080"), Some(8080));
    assert_eq!(parse_port("+7"), Some(7));
    assert_eq!(parse_port("65535"), Some(65535));
    assert_eq!(parse_port("65536"), None);
    assert_eq!(parse_port(""), None);
    assert_eq!(parse_port("+"), None);
    assert_eq!(parse_port("12a"), None);
    assert_eq!(parse_port("-1"), None);
}

#[test]
fn port_fields_default_and_report() {
    assert_eq!(parse_tcp_port(""), Ok(TCP_PORT));
    assert_eq!(parse_tcp_port("5000"), Ok(5000));
    assert_eq!(parse_tcp_port("0"), Err("invalid tcp port '0'".to_string()));
    assert_eq!(parse_tcp_port("x"), Err("invalid tcp port 'x'".to_string()));
    assert_eq!(parse_udp_port(""), Ok(None));
    assert_eq!(parse_udp_port("0"), Ok(Some(0)));
    assert_eq!(parse_udp_port("99999"), Err("invalid udp port '99999'".to_string()));
}

#[test]
fn dialing_adds_the_default_port() {
    assert_eq!(dial_addr("10.0.0.2"), "10.0.0.2:4000");
    assert_eq!(dial_addr("10.0.0.2:5000"), "10.0.0.2:5000");
    assert_eq!(field_view("abc", true), "abc_");
    assert_eq!(field_view("abc", false), "abc");
    assert_eq!(team_label(Some(3)), "3");
    assert_eq!(team_label(None), "-");
}

#[test]
fn teams_cycle_through_the_seats() {
    assert_eq!(next_team(None, 4), Some(1));
    assert_eq!(next_team(Some(1), 4), Some(2));
    assert_eq!(next_team(Some(3), 4), Some(4));
    assert_eq!(next_team(Some(4), 4), None);
    assert_eq!(Race::Human.toggled(), Race::Orc);
    assert_eq!(Race::Orc.toggled().toggled(), Race::Orc);
    assert_eq!(Race::from_id(Some("orc")), Race::Orc);
    assert_eq!(Race::from_id(Some("elves")), Race::Human);
    assert_eq!(Race::from_id(None), Race::Human);
}

#[test]
fn who_may_start() {
    assert!(can_start(LobbyMode::Local, LinkState::Absent));
    assert!(can_start(LobbyMode::Host, LinkState::Host));
    assert!(!can_start(LobbyMode::Host, LinkState::Absent));
    assert!(!can_start(LobbyMode::Client, LinkState::Client { local_player: Some(1) }));
}

#[test]
fn a_fresh_local_lobby() {
    let config = LobbyConfig::for_mode(LobbyMode::Local);
    assert_eq!(config.map, "demo");
    assert_eq!(config.slots.len(), 4);
    assert_eq!(config.slots[0].kind, SlotKind::Human);
    assert_eq!(config.slots[1].kind, SlotKind::Ai);
    assert_eq!(config.slots[1].race, Race::Orc);
    assert_eq!(config.local_seat, LocalRole::Player(0));
    assert_eq!(slot_line(0, config.slots[0], config.local_seat), "Slot 0: Human - Humans - Team - (you)");
    let host = LobbyConfig::for_mode(LobbyMode::Host);
    assert_eq!(host.slots[1].kind, SlotKind::Open);
    assert_eq!(title(LobbyMode::Client), "Connect To Network Game");
    assert_eq!(hosting_status(4000), "hosting on port 4000 - clients dial this machine's ip");
}

#[test]
fn rebinding_waits_for_a_settled_port() {
    let mut last = None;
    let mut cooldown = 0;
    assert!(matches!(rebind_step(LobbyMode::Local, Some(4000), "5000", &mut last, &mut cooldown), RebindAction::Idle));
    assert!(matches!(rebind_step(LobbyMode::Host, Some(4000), "", &mut last, &mut cooldown), RebindAction::Idle));
    assert_eq!(last, Some(4000));
    assert!(matches!(rebind_step(LobbyMode::Host, Some(4000), "5000", &mut last, &mut cooldown), RebindAction::Idle));
    assert_eq!((last, cooldown), (Some(5000), CONNECT_RETRY_FRAMES));
    for _ in 0..CONNECT_RETRY_FRAMES {
        assert!(matches!(rebind_step(LobbyMode::Host, Some(4000), "5000", &mut last, &mut cooldown), RebindAction::Idle));
    }
    assert!(matches!(rebind_step(LobbyMode::Host, Some(4000), "5000", &mut last, &mut cooldown), RebindAction::Reopen(5000)));
    match rebind_step(LobbyMode::Host, Some(4000), "50x", &mut last, &mut cooldown) {
        RebindAction::Report(message) => assert_eq!(message, "invalid tcp port '50x'"),
        _ => panic!("a bad port is reported"),
    }
}

#[test]
fn a_client_dials_on_a_cooldown() {
    let mut cooldown = 0;
    match connect_step(LobbyMode::Client, LinkState::Absent, None, "10.0.0.2", &mut cooldown) {
        ConnectAction::Dial { addr, field } => {
            assert_eq!(addr, "10.0.0.2:4000");
            assert_eq!(field, "10.0.0.2");
        }
        _ => panic!("an unlinked client dials"),
    }
    assert_eq!(cooldown, CONNECT_RETRY_FRAMES);
    assert!(matches!(
        connect_step(LobbyMode::Client, LinkState::Absent, Some("10.0.0.2"), "10.0.0.2", &mut cooldown),
        ConnectAction::Poll
    ));
    assert!(matches!(
        connect_step(LobbyMode::Client, LinkState::Absent, Some("10.0.0.2"), "10.0.0.3", &mut cooldown),
        ConnectAction::Abandon
    ));
    assert_eq!(cooldown, 0);
    assert!(matches!(
        connect_step(LobbyMode::Host, LinkState::Absent, None, "10.0.0.2", &mut cooldown),
        ConnectAction::Idle
    ));
}

#[test]
fn clicks_pick_the_smallest_footprint() {
    let hall = Pickable { id: 1, x: 10, y: 10, width: 4, height: 4 };
    let worker = Pickable { id: 2, x: 11, y: 11, width: 1, height: 1 };
    let entities = vec![hall, worker];
    assert_eq!(entity_at((11, 11), &entities), Some(2));
    assert_eq!(entity_at((13, 13), &entities), Some(1));
    assert_eq!(entity_at((14, 14), &entities), None);
}

#[test]
fn the_primary_is_the_highest_priority() {
    let known = vec![(5, 1), (6, 3), (7, 3)];
    assert_eq!(primary(&vec![5, 6, 7], &known), Some(6));
    assert_eq!(primary(&vec![5], &known), Some(5));
    assert_eq!(primary(&Vec::new(), &known), None);
}

#[test]
fn hotkeys_for_stances_and_groups() {
    assert_eq!(next_stance(Stance::Flee), Stance::HoldFire);
    assert_eq!(next_stance(Stance::Defend), Stance::Flee);
    assert_eq!(group_key(0), 1);
    assert_eq!(group_key(9), 0);
    assert_eq!(group_command(2, true, true), GroupCommand::Append { group: 2 });
    assert_eq!(group_command(2, true, false), GroupCommand::Assign { group: 2 });
    assert_eq!(group_command(2, false, true), GroupCommand::Recall { group: 2, mode: SelectMode::Add });
    assert_eq!(group_command(2, false, false), GroupCommand::Recall { group: 2, mode: SelectMode::Replace });
}

#[test]
fn ports_written_out_parse_back() {
    for port in [0u16, 7, 10, 4000, 9999, 65535] {
        assert_eq!(parse_port(&port.to_string()), Some(port));
    }
}

#[test]
fn team_presses_cycle_back_to_no_team() {
    let mut team = None;
    for k in 1..=4u8 {
        team = next_team(team, 4);
        assert_eq!(team, Some(k));
    }
    assert_eq!(next_team(team, 4), None);
}

#[test]
fn every_group_has_its_own_key() {
    let keys: Vec<u8> = (0..10).map(group_key).collect();
    let mut sorted = keys.clone();
    sorted.sort();
    assert_eq!(sorted, (0..10).collect::<Vec<u8>>());
}

#[test]
fn the_lake_is_a_disc_of_253_cells() {
    let mut cells = 0;
    for y in 0..96u32 {
        for x in 0..96u32 {
            if in_lake(x, y) {
                cells += 1;
                assert!((39..=57).contains(&x) && (39..=57).contains(&y));
                assert!(in_lake(y, x));
                assert!(in_lake(96 - x, 96 - y));
            }
        }
    }
    assert_eq!(cells, 253);
}

#[test]
fn watching_and_back_restores_the_seats() {
    let mut config = LobbyConfig::for_mode(LobbyMode::Local);
    claim_local(&mut config, LocalRole::Player(2));
    let kinds: Vec<SlotKind> = config.slots.iter().map(|slot| slot.kind).collect();
    assert_eq!(kinds, vec![SlotKind::Ai, SlotKind::Ai, SlotKind::Human, SlotKind::Ai]);
    let outcome = press(&mut config, LobbyMode::Local, LinkState::Absent, LobbyButton::Observe);
    assert_eq!(outcome, ButtonOutcome::Nothing);
    assert_eq!(config.local_seat, LocalRole::Observer);
    assert_eq!(config.observers, 1);
    press(&mut config, LobbyMode::Local, LinkState::Absent, LobbyButton::Observe);
    assert_eq!(config.local_seat, LocalRole::Player(0));
    assert_eq!(config.observers, 0);
    let kinds: Vec<SlotKind> = config.slots.iter().map(|slot| slot.kind).collect();
    assert_eq!(kinds, vec![SlotKind::Human, SlotKind::Ai, SlotKind::Ai, SlotKind::Ai]);
}

#[test]
fn far_cells_are_judged_like_near_ones() {
    assert!(!in_lake(u32::MAX, u32::MAX));
    assert!(!in_lake(u32::MAX, 48));
    assert!(in_river(48, u32::MAX));
    assert!(in_river(u32::MAX, 48));
    assert!(!in_river(u32::MAX, u32::MAX));
    assert!(!in_river(48, 19));
    assert!(!in_river(48, 50));
}

#[test]
fn a_footprint_reaching_past_the_grid_is_still_picked() {
    let huge = Pickable { id: 7, x: u32::MAX - 2, y: u32::MAX - 2, width: u32::MAX, height: u32::MAX };
    let small = Pickable { id: 8, x: u32::MAX - 1, y: u32::MAX - 1, width: 1, height: 1 };
    assert_eq!(entity_at((u32::MAX - 1, u32::MAX - 1), &vec![huge, small]), Some(8));
    assert_eq!(entity_at((u32::MAX, u32::MAX), &vec![huge, small]), Some(7));
    assert_eq!(entity_at((0, 0), &vec![huge, small]), None);
}

#[test]
fn speeds_off_the_ladder_read_as_normal() {
    assert_eq!(SpeedStep::of(GameSpeed { numerator: 0, denominator: 1 }), SpeedStep::Normal);
    assert_eq!(SpeedStep::of(GameSpeed { numerator: 3, denominator: 10 }), SpeedStep::Normal);
    assert_eq!(SpeedStep::of(GameSpeed { numerator: 1 << 31, denominator: 1 << 32 }), SpeedStep::Slow);
    assert_eq!(SpeedStep::of(GameSpeed { numerator: u64::MAX, denominator: u64::MAX / 8 }), SpeedStep::Normal);
    assert_eq!(SpeedStep::of(GameSpeed { numerator: 8 << 40, denominator: 1 << 40 }), SpeedStep::Fastest);
}
