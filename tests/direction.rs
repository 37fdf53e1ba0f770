use pacman::{direction_for_key, Direction, DirectionController, Point, Vector};

#[test]
fn unit_vectors_point_the_right_way() {
    assert_eq!(Direction::Up.to_vec2(), Vector { x: 0, y: -1 });
    assert_eq!(Direction::Down.to_vec2(), Vector { x: 0, y: 1 });
    assert_eq!(Direction::Left.to_vec2(), Vector { x: -1, y: 0 });
    assert_eq!(Direction::Right.to_vec2(), Vector { x: 1, y: 0 });
}

#[test]
fn new_controller_is_empty() {
    let c = DirectionController::new();
    assert_eq!(c.queued_direction, None);
    assert_eq!(c.current_direction, None);
}

#[test]
fn queueing_replaces_the_earlier_request() {
    let mut c = DirectionController::new();
    c.queue_direction(Direction::Up);
    c.queue_direction(Direction::Left);
    assert_eq!(c.queued_direction, Some(Direction::Left));
    assert_eq!(c.current_direction, None);
}

#[test]
fn queued_direction_waits_for_alignment() {
    let mut c = DirectionController::new();
    c.queue_direction(Direction::Down);
    assert_eq!(c.update(Point { x: 35, y: 300 }), None);
    assert_eq!(c.queued_direction, Some(Direction::Down));
    assert_eq!(c.update(Point { x: 60, y: 315 }), None);
    assert_eq!(c.queued_direction, Some(Direction::Down));
    assert_eq!(c.update(Point { x: 60, y: 301 }), Some(Direction::Down));
    assert_eq!(c.queued_direction, None);
    assert_eq!(c.current_direction, Some(Direction::Down));
}

#[test]
fn aligned_update_without_request_keeps_direction() {
    let mut c = DirectionController::new();
    c.queue_direction(Direction::Right);
    assert_eq!(c.update(Point { x: 30, y: 30 }), Some(Direction::Right));
    assert_eq!(c.update(Point { x: 60, y: 60 }), Some(Direction::Right));
    c.queue_direction(Direction::Up);
    assert_eq!(c.update(Point { x: 40, y: 60 }), Some(Direction::Right));
    assert_eq!(c.update(Point { x: 89, y: 61 }), Some(Direction::Up));
}

#[test]
fn alignment_check_needs_both_axes() {
    let c = DirectionController::new();
    assert!(c.is_aligned_with_grid(Point { x: 30, y: 300 }));
    assert!(c.is_aligned_with_grid(Point { x: 59, y: 1 }));
    assert!(!c.is_aligned_with_grid(Point { x: 35, y: 300 }));
    assert!(!c.is_aligned_with_grid(Point { x: 30, y: 305 }));
}

#[test]
fn keys_map_to_directions() {
    assert_eq!(direction_for_key("ArrowUp"), Some(Direction::Up));
    assert_eq!(direction_for_key("KeyW"), Some(Direction::Up));
    assert_eq!(direction_for_key("ArrowDown"), Some(Direction::Down));
    assert_eq!(direction_for_key("KeyS"), Some(Direction::Down));
    assert_eq!(direction_for_key("ArrowLeft"), Some(Direction::Left));
    assert_eq!(direction_for_key("KeyA"), Some(Direction::Left));
    assert_eq!(direction_for_key("ArrowRight"), Some(Direction::Right));
    assert_eq!(direction_for_key("KeyD"), Some(Direction::Right));
}

#[test]
fn other_keys_map_to_nothing() {
    assert_eq!(direction_for_key(""), None);
    assert_eq!(direction_for_key("Space"), None);
    assert_eq!(direction_for_key("arrowup"), None);
    assert_eq!(direction_for_key("ArrowUpX"), None);
    assert_eq!(direction_for_key("KeyQ"), None);
}
