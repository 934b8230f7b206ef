use screen_board::board::{
    cycle_color, next_in_cycle, palette_colors, Board, Color, EventResponse, StrokeOutcome,
};
use screen_board::event::{TabletButton, TabletEvent};

type Pt = (i32, i32);

fn press(b: TabletButton) -> TabletEvent {
    TabletEvent::Button { button: b, pressed: true }
}

fn points(board: &Board<Pt>) -> Vec<Vec<Pt>> {
    board.strokes().iter().map(|s| s.points.clone()).collect()
}

#[test]
fn new_board_defaults() {
    let b: Board<Pt> = Board::new();
    assert!(b.strokes().is_empty());
    assert!(b.current_stroke().is_none());
    assert_eq!(b.selected_color(), Color { r: 0, g: 240, b: 255, a: 255 });
    assert!(!b.eraser_mode());
    assert!(!b.passthrough());
    assert!(!b.pen_in_range());
}

#[test]
fn drawing_a_stroke() {
    let mut b: Board<Pt> = Board::new();
    assert_eq!(b.stroke_input(true, (0, 0), true), StrokeOutcome::StrokeStarted);
    assert_eq!(b.last_point(), Some(&(0, 0)));
    assert_eq!(b.stroke_input(true, (5, 5), true), StrokeOutcome::PointAdded);
    assert_eq!(b.stroke_input(true, (5, 6), false), StrokeOutcome::PointSkipped);
    assert_eq!(b.current_stroke().as_ref().unwrap().points, vec![(0, 0), (5, 5)]);
    assert_eq!(b.stroke_input(false, (9, 9), false), StrokeOutcome::StrokeFinished);
    assert_eq!(b.stroke_input(false, (9, 9), false), StrokeOutcome::Idle);
    assert_eq!(points(&b), vec![vec![(0, 0), (5, 5)]]);
    assert_eq!(b.strokes()[0].color, Color::from_rgb(0, 240, 255));
    assert!(b.current_stroke().is_none());
    assert_eq!(b.last_point(), None);
}

#[test]
fn eraser_mode_asks_for_erasing() {
    let mut b: Board<Pt> = Board::new();
    assert_eq!(b.apply_event(press(TabletButton::Express1)), EventResponse::Nothing);
    assert!(b.eraser_mode());
    assert_eq!(b.stroke_input(true, (1, 1), true), StrokeOutcome::EraseRequested);
    assert!(b.current_stroke().is_none());
    b.apply_event(press(TabletButton::Express1));
    assert!(!b.eraser_mode());
}

#[test]
fn erase_removes_marked_strokes_in_order() {
    let mut b: Board<Pt> = Board::new();
    for i in 0..5 {
        b.stroke_input(true, (i, i), true);
        b.finish_stroke();
    }
    b.erase(&vec![false, true, false, true]);
    assert_eq!(points(&b), vec![vec![(0, 0)], vec![(2, 2)], vec![(4, 4)]]);
    b.erase(&vec![]);
    assert_eq!(points(&b).len(), 3);
    b.erase(&vec![true, true, true]);
    assert!(b.strokes().is_empty());
}

#[test]
fn undo_and_clear() {
    let mut b: Board<Pt> = Board::new();
    b.stroke_input(true, (1, 1), true);
    b.finish_stroke();
    b.stroke_input(true, (2, 2), true);
    b.finish_stroke();
    b.apply_event(press(TabletButton::Express2));
    assert_eq!(points(&b), vec![vec![(1, 1)]]);
    b.stroke_input(true, (3, 3), true);
    b.apply_event(press(TabletButton::Express3));
    assert!(b.strokes().is_empty());
    assert!(b.current_stroke().is_none());
    b.undo();
    assert!(b.strokes().is_empty());
}

#[test]
fn pen_events_finish_strokes() {
    let mut b: Board<Pt> = Board::new();
    assert_eq!(b.apply_event(TabletEvent::Proximity { in_range: true }), EventResponse::Nothing);
    assert!(b.pen_in_range());
    b.stroke_input(true, (1, 1), true);
    b.apply_event(TabletEvent::PenTouch { touching: true });
    assert!(b.current_stroke().is_some());
    b.apply_event(TabletEvent::PenTouch { touching: false });
    assert!(b.current_stroke().is_none());
    assert_eq!(points(&b).len(), 1);
    b.stroke_input(true, (2, 2), true);
    b.apply_event(TabletEvent::Proximity { in_range: false });
    assert!(!b.pen_in_range());
    assert_eq!(points(&b), vec![vec![(1, 1)], vec![(2, 2)]]);
}

#[test]
fn motion_asks_for_a_pen_sample() {
    let mut b: Board<Pt> = Board::new();
    let m = TabletEvent::PenMotion { x: 10, y: 10, pressure: 0, tilt_x: 0, tilt_y: 0 };
    assert_eq!(b.apply_event(m), EventResponse::PenSample { touching: false });
    let m = TabletEvent::PenMotion { x: 10, y: 10, pressure: 1, tilt_x: 0, tilt_y: 0 };
    assert_eq!(b.apply_event(m), EventResponse::PenSample { touching: true });
}

#[test]
fn passthrough_key_toggles_and_reports() {
    let mut b: Board<Pt> = Board::new();
    assert_eq!(b.apply_event(press(TabletButton::Express4)), EventResponse::SetPassthrough(true));
    assert!(b.passthrough());
    assert_eq!(b.apply_event(press(TabletButton::Express4)), EventResponse::SetPassthrough(false));
    assert!(!b.passthrough());
    b.enable_passthrough();
    assert!(b.passthrough());
}

#[test]
fn size_key_and_other_buttons() {
    let mut b: Board<Pt> = Board::new();
    assert_eq!(b.apply_event(press(TabletButton::Express6)), EventResponse::CycleBrushSize);
    assert_eq!(b.apply_event(press(TabletButton::Express7)), EventResponse::Nothing);
    assert_eq!(b.apply_event(press(TabletButton::Express8)), EventResponse::Nothing);
    assert_eq!(b.apply_event(press(TabletButton::Stylus1)), EventResponse::Nothing);
    let release = TabletEvent::Button { button: TabletButton::Express4, pressed: false };
    assert_eq!(b.apply_event(release), EventResponse::Nothing);
    assert!(!b.passthrough());
}

#[test]
fn colour_key_cycles_the_palette() {
    let mut b: Board<Pt> = Board::new();
    let palette = palette_colors();
    assert_eq!(palette.len(), 5);
    for i in 1..=5 {
        b.apply_event(press(TabletButton::Express5));
        assert_eq!(b.selected_color(), palette[i % 5]);
    }
    assert_eq!(b.selected_color(), Color::from_rgb(0, 240, 255));
    assert_eq!(cycle_color(Color::from_rgb(255, 255, 255)), Color::from_rgb(0, 240, 255));
    assert_eq!(cycle_color(Color::from_rgb(1, 2, 3)), Color::from_rgb(0, 240, 255));
    assert_eq!(cycle_color(Color::from_rgb(255, 0, 127)), Color::from_rgb(0, 255, 127));
}

#[test]
fn choosing_a_colour_leaves_eraser_mode() {
    let mut b: Board<Pt> = Board::new();
    b.apply_event(press(TabletButton::Express1));
    b.select_color(Color::from_rgb(255, 230, 0));
    assert!(!b.eraser_mode());
    assert_eq!(b.selected_color(), Color { r: 255, g: 230, b: 0, a: 255 });
    b.stroke_input(true, (0, 0), true);
    assert_eq!(b.current_stroke().as_ref().unwrap().color, Color::from_rgb(255, 230, 0));
}

#[test]
fn cycle_positions() {
    assert_eq!(next_in_cycle(Some(0), 5), 1);
    assert_eq!(next_in_cycle(Some(4), 5), 0);
    assert_eq!(next_in_cycle(None, 5), 0);
    let mut i = 2;
    for _ in 0..5 {
        i = next_in_cycle(Some(i), 5);
    }
    assert_eq!(i, 2);
}

#[test]
fn every_stroke_keeps_a_point() {
    let mut b: Board<Pt> = Board::new();
    b.stroke_input(true, (0, 0), false);
    b.stroke_input(true, (1, 0), false);
    b.finish_stroke();
    b.stroke_input(true, (2, 0), true);
    b.stroke_input(true, (3, 0), true);
    b.apply_event(TabletEvent::Proximity { in_range: false });
    b.erase(&vec![false]);
    b.stroke_input(true, (4, 0), true);
    b.apply_event(TabletEvent::PenTouch { touching: false });
    assert_eq!(points(&b), vec![vec![(0, 0)], vec![(2, 0), (3, 0)], vec![(4, 0)]]);
    assert!(b.strokes().iter().all(|s| !s.points.is_empty()));
}
