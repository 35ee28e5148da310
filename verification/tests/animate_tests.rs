use shellcore::animate::{animation_step, compute_frame, parse_direction, Direction, Frame, Geometry};

#[test]
fn zero_duration_runs_no_frame() {
    let start = Geometry { x: 10, y: 20, width: 300, height: 400 };
    assert_eq!(animation_step(&start, 100, 0, Direction::Normal, 0, 0), None);
    assert_eq!(animation_step(&start, 100, 0, Direction::Normal, 5, 0), None);
}

#[test]
fn step_yields_frames_strictly_before_the_duration() {
    let start = Geometry { x: 0, y: 0, width: 100, height: 100 };
    let mid = animation_step(&start, 50, 0, Direction::Normal, 500, 1000);
    assert_eq!(mid, Some(Frame { x: 0, y: 0, width: 125, height: 100 }));
    assert_eq!(animation_step(&start, 50, 0, Direction::Normal, 1000, 1000), None);
}

#[test]
fn shrink_centres_the_resize_at_full_progress() {
    let start = Geometry { x: 0, y: 0, width: 200, height: 200 };
    let f = compute_frame(&start, -100, -100, Direction::Shrink, 1000, 1000);
    assert_eq!(f, Frame { x: 50, y: 50, width: 100, height: 100 });
}

#[test]
fn left_growth_keeps_the_right_edge_fixed() {
    let start = Geometry { x: 300, y: 40, width: 400, height: 100 };
    let f = compute_frame(&start, 50, 0, Direction::Left, 1000, 1000);
    assert_eq!(f.x, 300 - 50);
    assert_eq!(f.width, 450);
    assert_eq!(f.y, 40);
    assert_eq!(f.x + f.width, start.x as i64 + start.width as i64);
}

#[test]
fn top_growth_moves_the_window_up() {
    let start = Geometry { x: 10, y: 500, width: 100, height: 100 };
    let f = compute_frame(&start, 0, 60, Direction::Top, 1000, 1000);
    assert_eq!(f, Frame { x: 10, y: 440, width: 100, height: 160 });
}

#[test]
fn interpolation_truncates_towards_zero() {
    let start = Geometry { x: 0, y: 0, width: 100, height: 100 };
    // 333/1000 of +50 is 16.65 and of -50 is -16.65; both truncate
    // towards zero.
    let f = compute_frame(&start, 50, -50, Direction::Normal, 333, 1000);
    assert_eq!(f, Frame { x: 0, y: 0, width: 116, height: 84 });
}

#[test]
fn progress_is_clamped_at_the_duration() {
    let start = Geometry { x: 7, y: 8, width: 90, height: 60 };
    let full = compute_frame(&start, 30, -20, Direction::Shrink, 1000, 1000);
    let beyond = compute_frame(&start, 30, -20, Direction::Shrink, 5000, 1000);
    assert_eq!(full, beyond);
}

#[test]
fn shrink_halves_are_truncated() {
    let start = Geometry { x: 0, y: 0, width: 200, height: 200 };
    // At full progress the offsets are -25/2 = -12.5 and 25/2 = 12.5,
    // truncated towards zero; the position moves by their negation.
    let f = compute_frame(&start, -25, 25, Direction::Shrink, 1000, 1000);
    assert_eq!(f, Frame { x: 12, y: -12, width: 175, height: 225 });
}

#[test]
fn direction_names_parse_and_fall_back_to_default() {
    assert_eq!(parse_direction("left"), Direction::Left);
    assert_eq!(parse_direction("top"), Direction::Top);
    assert_eq!(parse_direction("shrink"), Direction::Shrink);
    assert_eq!(parse_direction("default"), Direction::Normal);
    assert_eq!(parse_direction(""), Direction::Normal);
    assert_eq!(parse_direction("Left"), Direction::Normal);
}
