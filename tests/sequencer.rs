use mouse_jiggler::report::{MouseReport, REPORT_LEN};
use mouse_jiggler::sequencer::{Direction, MovementSequencer, STEP};

fn xy(r: MouseReport) -> (i8, i8) {
    (r.x, r.y)
}

#[test]
fn sequencer_starts_left_and_walks_the_square() {
    let mut s = MovementSequencer::new();
    assert_eq!(s.phase(), Direction::Left);
    assert_eq!(xy(s.next()), (-5, 0));
    assert_eq!(s.phase(), Direction::Right);
    assert_eq!(xy(s.next()), (5, 0));
    assert_eq!(s.phase(), Direction::Up);
    assert_eq!(xy(s.next()), (0, -5));
    assert_eq!(s.phase(), Direction::Down);
    assert_eq!(xy(s.next()), (0, 5));
    assert_eq!(s.phase(), Direction::Left);
}

#[test]
fn every_report_is_a_single_axis_step_without_buttons() {
    let mut s = MovementSequencer::new();
    for _ in 0..40 {
        let r = s.next();
        assert!([-STEP, 0, STEP].contains(&r.x));
        assert!([-STEP, 0, STEP].contains(&r.y));
        assert!(r.x == 0 || r.y == 0);
        assert!(r.x != 0 || r.y != 0);
        assert_eq!(r.buttons, 0);
        assert_eq!(r.wheel, 0);
        assert_eq!(r.pan, 0);
    }
}

#[test]
fn four_steps_return_to_the_same_phase_from_any_start() {
    for d in [Direction::Left, Direction::Right, Direction::Up, Direction::Down] {
        let mut s = MovementSequencer::starting_at(d);
        let first: Vec<MouseReport> = (0..4).map(|_| s.next()).collect();
        assert_eq!(s.phase(), d);
        let second: Vec<MouseReport> = (0..4).map(|_| s.next()).collect();
        assert_eq!(first, second);
    }
}

#[test]
fn four_reports_sum_to_zero_displacement() {
    for d in [Direction::Left, Direction::Right, Direction::Up, Direction::Down] {
        let mut s = MovementSequencer::starting_at(d);
        let (mut dx, mut dy) = (0i32, 0i32);
        for _ in 0..4 {
            let r = s.next();
            dx += r.x as i32;
            dy += r.y as i32;
        }
        assert_eq!((dx, dy), (0, 0));
    }
}

#[test]
fn direction_reports_and_successors() {
    assert_eq!(Direction::Left.report(), MouseReport { buttons: 0, x: -5, y: 0, wheel: 0, pan: 0 });
    assert_eq!(Direction::Down.report(), MouseReport { buttons: 0, x: 0, y: 5, wheel: 0, pan: 0 });
    assert_eq!(Direction::Left.following(), Direction::Right);
    assert_eq!(Direction::Down.following(), Direction::Left);
}

#[test]
fn movement_report_sets_only_the_axes() {
    let r = MouseReport::movement(-3, 7);
    assert_eq!(r, MouseReport { buttons: 0, x: -3, y: 7, wheel: 0, pan: 0 });
    assert_eq!(REPORT_LEN, 5);
}
