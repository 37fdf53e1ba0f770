use vstd::prelude::*;
use vstd::utf8::encode_utf8_decode_utf8;

use crate::geometry::{grid_aligned, is_axis_aligned, Point, Vector};

verus! {

/// One of the four movement directions; screen y grows downwards.
#[derive(Clone, Copy, Debug, PartialEq, Eq, Structural)]
pub enum Direction {
    Up,
    Down,
    Left,
    Right,
}

/// The unit vector of a direction.
pub open spec fn unit_vector(d: Direction) -> Vector {
    match d {
        Direction::Up => Vector { x: 0, y: -1i32 },
        Direction::Down => Vector { x: 0, y: 1 },
        Direction::Left => Vector { x: -1i32, y: 0 },
        Direction::Right => Vector { x: 1, y: 0 },
    }
}

impl Direction {
    /// The unit vector pointing this way.
    pub fn to_vec2(&self) -> (r: Vector)
        ensures
            r == unit_vector(*self),
    {
        match self {
            Direction::Up => Vector { x: 0, y: -1 },
            Direction::Down => Vector { x: 0, y: 1 },
            Direction::Left => Vector { x: -1, y: 0 },
            Direction::Right => Vector { x: 1, y: 0 },
        }
    }
}

/// Holds the direction the player asked for last and the one being applied.
#[derive(Clone, Copy, Debug, PartialEq, Eq, Structural)]
pub struct DirectionController {
    pub queued_direction: Option<Direction>,
    pub current_direction: Option<Direction>,
}

/// The controller after one resolution at `position`: a queued direction is
/// promoted to the current one only where the position is grid-aligned.
pub open spec fn resolve(c: DirectionController, position: Point) -> DirectionController {
    if grid_aligned(position) && c.queued_direction is Some {
        DirectionController { queued_direction: None, current_direction: c.queued_direction }
    } else {
        c
    }
}

impl DirectionController {
    /// A controller with nothing queued and no direction applied.
    pub fn new() -> (r: DirectionController)
        ensures
            r.queued_direction is None,
            r.current_direction is None,
    {
        DirectionController { queued_direction: None, current_direction: None }
    }

    /// Records `new_direction` as the latest request, replacing any earlier one.
    pub fn queue_direction(&mut self, new_direction: Direction)
        ensures
            final(self).queued_direction == Some(new_direction),
            final(self).current_direction == old(self).current_direction,
    {
        self.queued_direction = Some(new_direction);
    }

    /// Promotes the queued direction when `position` is grid-aligned, and
    /// returns the direction now applied.
    pub fn update(&mut self, position: Point) -> (r: Option<Direction>)
        ensures
            *final(self) == resolve(*old(self), position),
            r == final(self).current_direction,
    {
        if self.is_aligned_with_grid(position) {
            if let Some(queued) = self.queued_direction {
                self.current_direction = Some(queued);
                self.queued_direction = None;
            }
        }
        self.current_direction
    }

    /// Whether both coordinates of `position` are within a tenth of a cell of
    /// a grid line.
    pub fn is_aligned_with_grid(&self, position: Point) -> (r: bool)
        ensures
            r == grid_aligned(position),
    {
        is_axis_aligned(position.x) && is_axis_aligned(position.y)
    }
}

/// The direction a key asks for: the arrow keys and W, A, S, D, by their
/// key-code names.
pub open spec fn key_direction(key: Seq<char>) -> Option<Direction> {
    if key == "ArrowUp"@ || key == "KeyW"@ {
        Some(Direction::Up)
    } else if key == "ArrowDown"@ || key == "KeyS"@ {
        Some(Direction::Down)
    } else if key == "ArrowLeft"@ || key == "KeyA"@ {
        Some(Direction::Left)
    } else if key == "ArrowRight"@ || key == "KeyD"@ {
        Some(Direction::Right)
    } else {
        None
    }
}

/// Whether two byte strings are equal.
fn same_bytes(a: &[u8], b: &[u8]) -> (r: bool)
    ensures
        r == (a@ == b@),
{
    if a.len() != b.len() {
        return false;
    }
    let mut i: usize = 0;
    while i < a.len()
        invariant
            a@.len() == b@.len(),
            0 <= i <= a@.len(),
            forall|k: int| 0 <= k < i ==> a@[k] == b@[k],
        decreases a@.len() - i,
    {
        if a[i] != b[i] {
            return false;
        }
        i += 1;
    }
    assert(a@ =~= b@);
    true
}

/// Whether `key` is the text `name`.
fn is_key(key: &str, name: &str) -> (r: bool)
    ensures
        r == (key@ == name@),
{
    let r = same_bytes(key.as_bytes(), name.as_bytes());
    proof {
        encode_utf8_decode_utf8(key@);
        encode_utf8_decode_utf8(name@);
    }
    r
}

/// The direction that the key named `key` requests, if any.
pub fn direction_for_key(key: &str) -> (r: Option<Direction>)
    ensures
        r == key_direction(key@),
{
    if is_key(key, "ArrowUp") || is_key(key, "KeyW") {
        Some(Direction::Up)
    } else if is_key(key, "ArrowDown") || is_key(key, "KeyS") {
        Some(Direction::Down)
    } else if is_key(key, "ArrowLeft") || is_key(key, "KeyA") {
        Some(Direction::Left)
    } else if is_key(key, "ArrowRight") || is_key(key, "KeyD") {
        Some(Direction::Right)
    } else {
        None
    }
}

} // verus!
