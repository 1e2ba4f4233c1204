use ferrets_demo::lobby::LocalRole;
use ferrets_demo::render::{
    draw_layer, ghost_outline, next_perspective, paint_for, perspective, player_hue,
    prune_pulses, shape_for, shot_kind, side_representatives, sprite_look, status_bars,
    uprooted, work_marks, BarFacts, BarKind, DrawLayer, GhostOutline, Paint, Perspective,
    PlayerHue, SeatTeam, Shape, ShotKind, SiteWork, StatusBar,
};
use ferrets_demo::render::{
    field_tint, fog_shade, rally_shown, viewed_player, work_link, CellKnowledge, FieldTint,
    FogShade, FrontOrder, WorkLink,
};
use ferrets_demo::sound::{
    admit_cues, cue_cleanup, cues_for, grit_run, next_grit, own_milestone, Announcement, Cue,
    CueCleanup, CueRequest, Spot, Standing, GRIT_SEED, MAX_CONCURRENT_CUES,
};

#[test]
fn milestones_belong_to_their_owner() {
    assert!(own_milestone(LocalRole::Observer, Some(3)));
    assert!(own_milestone(LocalRole::Player(1), Some(1)));
    assert!(!own_milestone(LocalRole::Player(1), Some(2)));
    assert!(own_milestone(LocalRole::Player(1), None));
}

fn spot(x: u64, y: u64) -> Spot {
    Spot { x, y }
}

#[test]
fn cues_for_each_announcement() {
    let me = LocalRole::Player(0);
    let mut out = Vec::new();
    cues_for(me, Announcement::DamageLanded { at: spot(1, 2) }, &mut out);
    cues_for(me, Announcement::Died { at: spot(3, 3), killed: false }, &mut out);
    cues_for(me, Announcement::Died { at: spot(4, 4), killed: true }, &mut out);
    cues_for(me, Announcement::Morphed { place: None }, &mut out);
    cues_for(me, Announcement::Gathered { storage: Some(spot(5, 5)) }, &mut out);
    cues_for(
        me,
        Announcement::ConstructionCompleted { building: Some(Standing { owner: Some(1), at: spot(6, 6) }) },
        &mut out,
    );
    cues_for(
        me,
        Announcement::ConstructionCompleted { building: Some(Standing { owner: Some(0), at: spot(7, 7) }) },
        &mut out,
    );
    cues_for(me, Announcement::ResearchCompleted { player: 0, researcher: None }, &mut out);
    cues_for(me, Announcement::ResearchCompleted { player: 2, researcher: Some(spot(8, 8)) }, &mut out);
    cues_for(me, Announcement::PlayerSkillCast { player: 0 }, &mut out);
    cues_for(me, Announcement::Quiet, &mut out);
    assert_eq!(
        out,
        vec![
            (Cue::Hit, Some(spot(1, 2))),
            (Cue::Explosion, Some(spot(4, 4))),
            (Cue::Delivery, Some(spot(5, 5))),
            (Cue::Completed, Some(spot(7, 7))),
            (Cue::Research, None),
            (Cue::Cast, None),
        ]
    );
}

#[test]
fn a_cast_sounds_twice_unless_it_is_one_place() {
    let mut out = Vec::new();
    cues_for(
        LocalRole::Observer,
        Announcement::SkillCast { caster: Some(spot(1, 1)), target: Some(spot(2, 2)) },
        &mut out,
    );
    assert_eq!(out, vec![(Cue::Cast, Some(spot(1, 1))), (Cue::Effect, Some(spot(2, 2)))]);
    let mut own = Vec::new();
    cues_for(
        LocalRole::Observer,
        Announcement::SkillCast { caster: Some(spot(1, 1)), target: Some(spot(1, 1)) },
        &mut own,
    );
    assert_eq!(own, vec![(Cue::Cast, Some(spot(1, 1)))]);
    let mut gone = Vec::new();
    cues_for(LocalRole::Observer, Announcement::SkillCast { caster: None, target: Some(spot(3, 3)) }, &mut gone);
    assert_eq!(gone, vec![(Cue::Effect, Some(spot(3, 3)))]);
}

fn request(placed: bool, heard: bool) -> CueRequest {
    CueRequest { cue: Cue::Hit, placed, heard }
}

#[test]
fn admit_cues_caps_what_sounds() {
    let wanted = vec![request(true, true), request(true, false), request(false, false), request(true, true)];
    assert_eq!(admit_cues(0, &wanted), vec![0, 2, 3]);
    assert_eq!(admit_cues(MAX_CONCURRENT_CUES - 1, &wanted), vec![0]);
    assert_eq!(admit_cues(MAX_CONCURRENT_CUES - 2, &wanted), vec![0, 2]);
    assert!(admit_cues(MAX_CONCURRENT_CUES, &wanted).is_empty());
    let many: Vec<CueRequest> = (0..20).map(|_| request(false, false)).collect();
    assert_eq!(admit_cues(0, &many).len(), MAX_CONCURRENT_CUES);
}

#[test]
fn cue_cleanup_cases() {
    assert_eq!(cue_cleanup(Some(true), None, false), CueCleanup::Despawn);
    assert_eq!(cue_cleanup(Some(false), Some(true), false), CueCleanup::Keep);
    assert_eq!(cue_cleanup(None, Some(true), false), CueCleanup::Despawn);
    assert_eq!(cue_cleanup(None, Some(false), true), CueCleanup::Keep);
    assert_eq!(cue_cleanup(None, None, false), CueCleanup::Mark);
    assert_eq!(cue_cleanup(None, None, true), CueCleanup::Despawn);
}

#[test]
fn grit_follows_the_xorshift() {
    assert_eq!(GRIT_SEED, 0x2545_f491);
    assert_eq!(next_grit(GRIT_SEED), 3777279546);
    assert_eq!(grit_run(3), vec![3777279546, 2342155435, 1692513196]);
    assert!(grit_run(0).is_empty());
    assert_eq!(next_grit(1), 1 ^ (1 << 13) ^ (((1u32 ^ (1 << 13)) << 5)));
}

fn seat(id: u8, team: Option<u8>) -> SeatTeam {
    SeatTeam { id, team }
}

#[test]
fn sides_are_first_members_and_loners() {
    let seats = vec![seat(0, Some(1)), seat(1, None), seat(2, Some(1)), seat(3, Some(2)), seat(4, None)];
    assert_eq!(side_representatives(&seats), vec![0, 1, 3, 4]);
    assert!(side_representatives(&Vec::new()).is_empty());
}

#[test]
fn perspective_cycle_visits_each_side_then_the_whole_map() {
    let sides = vec![0, 1, 3];
    assert_eq!(next_perspective(None, &sides), Some(0));
    assert_eq!(next_perspective(Some(0), &sides), Some(1));
    assert_eq!(next_perspective(Some(1), &sides), Some(3));
    assert_eq!(next_perspective(Some(3), &sides), None);
    assert_eq!(next_perspective(Some(9), &sides), None);
    assert_eq!(next_perspective(None, &Vec::new()), None);
}

#[test]
fn perspective_prefers_the_local_player() {
    assert_eq!(perspective(Some(2), Some(3)), Perspective::Player(2));
    assert_eq!(perspective(None, Some(3)), Perspective::Player(3));
    assert_eq!(perspective(None, None), Perspective::Everything);
}

#[test]
fn shapes_by_type_name() {
    assert_eq!(shape_for("peasant"), Shape::Circle);
    assert_eq!(shape_for("grunt"), Shape::Diamond);
    assert_eq!(shape_for("archer"), Shape::Triangle);
    assert_eq!(shape_for("barracks"), Shape::Hexagon);
    assert_eq!(shape_for("siege_tank"), Shape::Tank { sieged: true });
    assert_eq!(shape_for("gryphon_aloft"), Shape::Gryphon { aloft: true });
    assert_eq!(shape_for("town_hall"), Shape::Square);
    assert_eq!(shape_for("ancient_protector_uprooted"), Shape::GuardTower);
    assert!(uprooted("ancient_of_war_uprooted"));
    assert!(!uprooted("ancient_of_war"));
}

#[test]
fn remains_wear_the_fallen_shape() {
    let body = sprite_look("remains", Some("archer"));
    assert_eq!(body.shape, Shape::Triangle);
    assert!(body.remains);
    assert!(!body.roots);
    let walker = sprite_look("tree_of_life_uprooted", None);
    assert_eq!(walker.shape, Shape::Square);
    assert!(!walker.remains);
    assert!(walker.roots);
}

#[test]
fn ghosts_and_shots() {
    assert_eq!(ghost_outline(Shape::Hexagon), GhostOutline::Polygon { sides: 6 });
    assert_eq!(ghost_outline(Shape::Fortress), GhostOutline::Polygon { sides: 8 });
    assert_eq!(ghost_outline(Shape::Pod), GhostOutline::Circle);
    assert_eq!(ghost_outline(Shape::Square), GhostOutline::Rect);
    assert_eq!(shot_kind(Some("arrow")), ShotKind::Arrow);
    assert_eq!(shot_kind(Some("shell")), ShotKind::Shell);
    assert_eq!(shot_kind(Some("bolt")), ShotKind::Plain);
    assert_eq!(shot_kind(None), ShotKind::Plain);
}

#[test]
fn pulses_expire_after_their_ticks() {
    let mut pulses = vec![(1, 0), (2, 5), (3, 10), (4, 20)];
    prune_pulses(&mut pulses, 14);
    assert_eq!(pulses, vec![(2, 5), (3, 10), (4, 20)]);
    prune_pulses(&mut pulses, 15);
    assert_eq!(pulses, vec![(3, 10), (4, 20)]);
}

#[test]
fn layers_and_paint() {
    assert_eq!(draw_layer(true, false), DrawLayer::Air);
    assert_eq!(draw_layer(false, true), DrawLayer::Walking);
    assert_eq!(draw_layer(false, false), DrawLayer::Standing);
    assert_eq!(player_hue(0), PlayerHue::Blue);
    assert_eq!(player_hue(3), PlayerHue::Purple);
    assert_eq!(player_hue(4), PlayerHue::Tan);
    assert_eq!(paint_for(Some("wood"), Some((1, false))), Paint::Wood);
    assert_eq!(paint_for(Some("gold"), None), Paint::Gold);
    assert_eq!(paint_for(Some("crystal"), None), Paint::OtherSource);
    assert_eq!(paint_for(None, Some((4, true))), Paint::Environment);
    assert_eq!(paint_for(None, Some((1, false))), Paint::Player(PlayerHue::Red));
    assert_eq!(paint_for(None, None), Paint::Neutral);
}

#[test]
fn status_bars_stack_in_order() {
    let facts = BarFacts {
        energy: Some((20, 0)),
        health: Some((30, 40)),
        lifetime: Some((50, 40)),
        construction: None,
        training: Some((3, None, 2)),
        research: Some((5, Some(0))),
        morph: None,
        brood: Some((1, 0)),
    };
    assert_eq!(
        status_bars(facts),
        vec![
            StatusBar { kind: BarKind::Health, done: 30, whole: 40 },
            StatusBar { kind: BarKind::Lifetime, done: 0, whole: 40 },
            StatusBar { kind: BarKind::Research, done: 5, whole: 1 },
            StatusBar { kind: BarKind::Brood, done: 1, whole: 1 },
            StatusBar { kind: BarKind::Training { queued: 2 }, done: 3, whole: 1 },
        ]
    );
    let site = BarFacts {
        energy: None,
        health: None,
        lifetime: None,
        construction: Some((10, Some(60))),
        training: None,
        research: None,
        morph: Some((2, Some(8))),
        brood: None,
    };
    assert_eq!(
        status_bars(site),
        vec![
            StatusBar { kind: BarKind::Construction, done: 10, whole: 60 },
            StatusBar { kind: BarKind::Morph, done: 2, whole: 8 },
        ]
    );
}

#[test]
fn work_marks_count_the_crew() {
    assert_eq!(work_marks(Some(2), Some(1), Some(SiteWork::Crew { builders: 3 })), (6, false));
    assert_eq!(work_marks(None, None, Some(SiteWork::Halted)), (0, true));
    assert_eq!(work_marks(Some(1), None, Some(SiteWork::Unattended)), (1, false));
    assert_eq!(work_marks(None, None, None), (0, false));
}

#[test]
fn fields_are_drawn_for_the_viewed_player() {
    assert_eq!(viewed_player(Some(1), Some(2)), Some(1));
    assert_eq!(viewed_player(None, Some(2)), Some(2));
    assert_eq!(viewed_player(None, None), None);
    let holders = vec![0, 3];
    assert_eq!(field_tint(true, true, &holders, Some(3)), FieldTint::Creep);
    assert_eq!(field_tint(false, true, &holders, Some(3)), FieldTint::Blight);
    assert_eq!(field_tint(false, false, &holders, Some(3)), FieldTint::Power);
    assert_eq!(field_tint(false, false, &holders, Some(1)), FieldTint::Clear);
    assert_eq!(field_tint(false, false, &holders, None), FieldTint::Clear);
}

#[test]
fn fog_darkens_by_what_is_known() {
    assert_eq!(fog_shade(false, CellKnowledge::Unexplored), FogShade::Black);
    assert_eq!(fog_shade(false, CellKnowledge::Explored), FogShade::Dimmed);
    assert_eq!(fog_shade(false, CellKnowledge::Visible), FogShade::Clear);
    assert_eq!(fog_shade(true, CellKnowledge::Unexplored), FogShade::Clear);
}

#[test]
fn work_lines_follow_the_work_under_way() {
    assert_eq!(work_link(Some(FrontOrder::Build), true, None, None), Some(WorkLink::Site));
    assert_eq!(work_link(Some(FrontOrder::Build), false, Some(9), Some(0)), None);
    assert_eq!(work_link(Some(FrontOrder::Harvest), true, Some(7), None), Some(WorkLink::Source(7)));
    assert_eq!(work_link(Some(FrontOrder::Harvest), true, None, None), None);
    assert_eq!(work_link(Some(FrontOrder::Repair), false, None, Some(3)), Some(WorkLink::Mend { stalled: true }));
    assert_eq!(work_link(Some(FrontOrder::Repair), false, None, Some(0)), Some(WorkLink::Mend { stalled: false }));
    assert_eq!(work_link(Some(FrontOrder::Repair), false, None, None), None);
    assert_eq!(work_link(Some(FrontOrder::Other), true, Some(7), Some(1)), None);
    assert_eq!(work_link(None, true, Some(7), Some(1)), None);
}

#[test]
fn rally_lines_are_the_local_players_own() {
    assert!(rally_shown(Some(2), 2, true));
    assert!(!rally_shown(Some(2), 2, false));
    assert!(!rally_shown(Some(1), 2, true));
    assert!(!rally_shown(None, 2, true));
}
