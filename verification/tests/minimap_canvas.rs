use ferrets_demo::canvas::{Canvas, Point};
use ferrets_demo::minimap::{
    blip_color, compose, hurt_recently, needs_compose, significance, Blip, Footprint,
    Significance, Visibility, GHOST, HURT, SELECTED, VIEWPORT, VOID,
};

const RED: [u8; 4] = [200, 0, 0, 255];
const GREEN: [u8; 4] = [0, 200, 0, 255];
const BLUE: [u8; 4] = [0, 0, 200, 255];

#[test]
fn a_new_canvas_is_filled() {
    let canvas = Canvas::new(3, 2, RED);
    assert_eq!(canvas.width(), 3);
    assert_eq!(canvas.height(), 2);
    assert_eq!(canvas.bytes().len(), 24);
    assert_eq!(canvas.get(2, 1), Some(RED));
    assert_eq!(canvas.get(3, 0), None);
}

#[test]
fn put_and_fill_paint_inside_only() {
    let mut canvas = Canvas::new(4, 4, RED);
    canvas.put(1, 2, GREEN);
    let before = canvas.bytes().to_vec();
    canvas.put(9, 9, GREEN);
    canvas.put(4, 0, GREEN);
    assert_eq!(canvas.bytes(), &before[..]);
    assert_eq!(canvas.get(1, 2), Some(GREEN));
    assert_eq!(canvas.get(2, 1), Some(RED));
    canvas.fill(2, 2, 5, 5, BLUE);
    assert_eq!(canvas.get(3, 3), Some(BLUE));
    assert_eq!(canvas.get(2, 2), Some(BLUE));
    assert_eq!(canvas.get(1, 1), Some(RED));
}

#[test]
fn a_line_reaches_both_ends() {
    let mut canvas = Canvas::new(8, 8, RED);
    canvas.line(Point { x: 0, y: 0 }, Point { x: 7, y: 3 }, GREEN);
    assert_eq!(canvas.get(0, 0), Some(GREEN));
    assert_eq!(canvas.get(7, 3), Some(GREEN));
    assert_eq!(canvas.get(0, 7), Some(RED));
    let mut steep = Canvas::new(8, 8, RED);
    steep.line(Point { x: 2, y: 7 }, Point { x: 2, y: 1 }, BLUE);
    for y in 1..8 {
        assert_eq!(steep.get(2, y), Some(BLUE));
    }
    assert_eq!(steep.get(2, 0), Some(RED));
}

#[test]
fn a_line_off_the_canvas_is_clipped() {
    let mut canvas = Canvas::new(4, 4, RED);
    canvas.line(Point { x: -3, y: 1 }, Point { x: 6, y: 1 }, GREEN);
    for x in 0..4 {
        assert_eq!(canvas.get(x, 1), Some(GREEN));
    }
    assert_eq!(canvas.get(0, 0), Some(RED));
}

#[test]
fn restore_copies_a_picture() {
    let base = Canvas::new(2, 2, BLUE);
    let mut canvas = Canvas::new(2, 2, RED);
    canvas.restore(&base);
    assert_eq!(canvas.bytes(), base.bytes());
}

#[test]
fn hurt_blinks_after_its_solid_stretch() {
    assert!(!hurt_recently(None, 50));
    assert!(hurt_recently(Some(100), 100));
    assert!(hurt_recently(Some(100), 119));
    assert!(!hurt_recently(Some(100), 130));
    assert!(hurt_recently(Some(100), 140));
    assert!(!hurt_recently(Some(100), 240));
    assert!(hurt_recently(Some(100), 50));
}

#[test]
fn blips_by_significance_and_color() {
    assert_eq!(significance(true, true, true), Significance::Selected);
    assert_eq!(significance(true, true, false), Significance::Own);
    assert_eq!(significance(true, false, false), Significance::Team);
    assert_eq!(significance(false, false, false), Significance::Stranger);
    assert_eq!(blip_color(true, true, true, BLUE), SELECTED);
    assert_eq!(blip_color(false, true, true, BLUE), HURT);
    assert_eq!(blip_color(false, false, true, BLUE), BLUE);
    assert_eq!(blip_color(false, true, false, BLUE), BLUE);
}

#[test]
fn compose_only_when_something_changed() {
    let view = Some([Point { x: 0, y: 0 }, Point { x: 1, y: 0 }, Point { x: 1, y: 1 }, Point { x: 0, y: 1 }]);
    assert!(!needs_compose(Some(5), 5, false, view, view));
    assert!(needs_compose(Some(4), 5, false, view, view));
    assert!(needs_compose(Some(5), 5, true, view, view));
    assert!(needs_compose(Some(5), 5, false, None, view));
    assert!(needs_compose(None, 5, false, view, view));
}

#[test]
fn compose_layers_fog_ghosts_blips_and_viewport() {
    let base = Canvas::new(4, 4, GREEN);
    let explored = Canvas::new(4, 4, BLUE);
    let mut canvas = Canvas::new(4, 4, RED);
    let mut fog = vec![Visibility::Visible; 16];
    fog[0] = Visibility::Unexplored;
    fog[1] = Visibility::Explored;
    fog[2] = Visibility::Explored;
    let ghosts = vec![Footprint { x: 2, y: 0, width: 1, height: 1 }];
    let blips = vec![
        Blip { significance: Significance::Selected, x: 1, y: 2, width: 1, height: 1, color: SELECTED },
        Blip { significance: Significance::Stranger, x: 1, y: 2, width: 2, height: 1, color: RED },
    ];
    compose(&mut canvas, &base, &explored, Some(&fog), &ghosts, &blips, None);
    assert_eq!(canvas.get(0, 0), Some(VOID));
    assert_eq!(canvas.get(1, 0), Some(BLUE));
    assert_eq!(canvas.get(2, 0), Some(GHOST));
    assert_eq!(canvas.get(3, 3), Some(GREEN));
    assert_eq!(canvas.get(1, 2), Some(SELECTED));
    assert_eq!(canvas.get(2, 2), Some(RED));

    let corners = [Point { x: 0, y: 0 }, Point { x: 3, y: 0 }, Point { x: 3, y: 3 }, Point { x: 0, y: 3 }];
    compose(&mut canvas, &base, &explored, None, &ghosts, &blips, Some(corners));
    assert_eq!(canvas.get(0, 0), Some(VIEWPORT));
    assert_eq!(canvas.get(2, 0), Some(VIEWPORT));
    assert_eq!(canvas.get(1, 1), Some(GREEN));
    assert_eq!(canvas.get(1, 2), Some(SELECTED));
}
