use vstd::arithmetic::div_mod::lemma_fundamental_div_mod_converse;
use vstd::prelude::*;

use crate::direction::{
    direction_for_key, key_direction, resolve, unit_vector, Direction, DirectionController,
};
use crate::geometry::{
    clamp_coord, clamp_to_bounds, in_rect, is_point_in_rect, is_within_reach, within_reach,
    Point, Rect, Vector, CELL_SIZE, GRID_SIZE, PACMAN_SPEED,
};

verus! {

/// Change of the mouth angle per tick, in tenths of a radian.
pub const MOUTH_SPEED: i32 = 2;

/// Widest mouth opening, in tenths of a radian.
pub const MAX_MOUTH_ANGLE: i32 = 10;

/// Points earned for each dot collected.
pub const DOT_SCORE: i32 = 10;

/// Diameter of the player's disc, in pixels.
pub const PACMAN_SIZE: u32 = 24;

/// Number of dots along each side of the standard layout.
pub const DOTS_PER_SIDE: u32 = 18;

/// Where the player starts in the standard layout: one cell in from the left
/// edge, halfway down.
pub open spec fn start_position() -> Point {
    Point { x: CELL_SIZE, y: (CELL_SIZE * GRID_SIZE / 2) as u32 }
}

/// The `i`-th dot of the standard layout: one dot on every interior grid
/// point, column by column.
pub open spec fn standard_dot(i: int) -> Point {
    Point {
        x: (CELL_SIZE * (1 + i / DOTS_PER_SIDE as int)) as u32,
        y: (CELL_SIZE * (1 + i % DOTS_PER_SIDE as int)) as u32,
    }
}

/// The dots of the standard layout.
pub open spec fn standard_layout() -> Seq<Point> {
    Seq::new((DOTS_PER_SIDE * DOTS_PER_SIDE) as nat, |i: int| standard_dot(i))
}

/// The "play again" button shown once the game is won.
pub open spec fn play_again_rect() -> Rect {
    Rect { x: 300, y: 360, width: 200, height: 50 }
}

/// The abstract state of a game.
pub ghost struct GameModel {
    /// The player's position.
    pub pos: Point,
    /// The mouth opening, in tenths of a radian.
    pub mouth_angle: int,
    /// Whether the mouth is opening (rather than closing).
    pub mouth_opening: bool,
    /// The dots still to collect.
    pub dots: Seq<Point>,
    /// Points earned so far.
    pub score: int,
    /// The queued and the applied direction.
    pub controller: DirectionController,
    /// Set once no dot is left; ticks then change nothing until a reset.
    pub game_won: bool,
    /// Where the player starts, and goes back to on reset.
    pub start: Point,
    /// The dots at the start, restored on reset.
    pub layout: Seq<Point>,
}

/// The vector the player moves along: that of the current direction, or none.
pub open spec fn heading(c: DirectionController) -> Vector {
    match c.current_direction {
        Some(d) => unit_vector(d),
        None => Vector { x: 0, y: 0 },
    }
}

/// `p` moved one step along `v`, then clamped into the playable area.
pub open spec fn moved(p: Point, v: Vector) -> Point {
    Point {
        x: clamp_coord(p.x + v.x * PACMAN_SPEED) as u32,
        y: clamp_coord(p.y + v.y * PACMAN_SPEED) as u32,
    }
}

/// Whether a dot stays when the player is at `player`.
pub open spec fn out_of_reach(player: Point) -> spec_fn(Point) -> bool {
    |d: Point| !within_reach(d, player)
}

/// The dots that stay when the player is at `player`, in their order.
pub open spec fn remaining_dots(dots: Seq<Point>, player: Point) -> Seq<Point> {
    dots.filter(out_of_reach(player))
}

/// The mouth angle and opening flag after one tick.
pub open spec fn mouth_step(angle: int, opening: bool, moving: bool) -> (int, bool) {
    if !moving {
        (0, true)
    } else if opening {
        (angle + MOUTH_SPEED, angle + MOUTH_SPEED < MAX_MOUTH_ANGLE)
    } else {
        (angle - MOUTH_SPEED, angle - MOUTH_SPEED <= 0)
    }
}

/// The state after one tick.
pub open spec fn tick(m: GameModel) -> GameModel {
    if m.game_won {
        m
    } else {
        let controller = resolve(m.controller, m.pos);
        let v = heading(controller);
        let pos = moved(m.pos, v);
        let dots = remaining_dots(m.dots, pos);
        let mouth = mouth_step(m.mouth_angle, m.mouth_opening, v != Vector { x: 0, y: 0 });
        GameModel {
            pos,
            mouth_angle: mouth.0,
            mouth_opening: mouth.1,
            dots,
            score: m.score + DOT_SCORE * (m.dots.len() - dots.len()),
            controller,
            game_won: dots.len() == 0,
            start: m.start,
            layout: m.layout,
        }
    }
}

/// A fresh game: the player at `start`, the dots of `layout`, nothing scored.
pub open spec fn initial_model(start: Point, layout: Seq<Point>) -> GameModel {
    GameModel {
        pos: start,
        mouth_angle: 0,
        mouth_opening: true,
        dots: layout,
        score: 0,
        controller: DirectionController { queued_direction: None, current_direction: None },
        game_won: false,
        start,
        layout,
    }
}

/// The state that a reset leads to.
pub open spec fn reset_model(m: GameModel) -> GameModel {
    initial_model(m.start, m.layout)
}

/// The player: where it is and how its mouth moves.
struct GameObject {
    pos: Point,
    mouth_angle: i32,
    mouth_opening: bool,
}

/// A running game.
pub struct GameState {
    pacman: GameObject,
    dots: Vec<Point>,
    score: i32,
    direction_controller: DirectionController,
    game_won: bool,
    start: Point,
    layout: Vec<Point>,
}

/// The bounds on the mouth animation that keep its arithmetic in range.
pub open spec fn mouth_ok(angle: int, opening: bool) -> bool {
    &&& -MOUTH_SPEED < angle < MAX_MOUTH_ANGLE + MOUTH_SPEED
    &&& opening ==> angle < MAX_MOUTH_ANGLE
    &&& !opening ==> angle > 0
}

impl View for GameState {
    type V = GameModel;

    closed spec fn view(&self) -> GameModel {
        GameModel {
            pos: self.pacman.pos,
            mouth_angle: self.pacman.mouth_angle as int,
            mouth_opening: self.pacman.mouth_opening,
            dots: self.dots@,
            score: self.score as int,
            controller: self.direction_controller,
            game_won: self.game_won,
            start: self.start,
            layout: self.layout@,
        }
    }
}

/// A copy of a list of points.
fn copy_points(v: &Vec<Point>) -> (r: Vec<Point>)
    ensures
        r@ == v@,
{
    let mut r: Vec<Point> = Vec::new();
    let mut i: usize = 0;
    while i < v.len()
        invariant
            0 <= i <= v@.len(),
            r@ == v@.subrange(0, i as int),
        decreases v@.len() - i,
    {
        r.push(v[i]);
        i += 1;
        assert(r@ =~= v@.subrange(0, i as int));
    }
    assert(v@.subrange(0, v@.len() as int) =~= v@);
    r
}

/// The dots that the player at `player` does not collect, in their order.
pub fn collect_dots(dots: &Vec<Point>, player: Point) -> (kept: Vec<Point>)
    ensures
        kept@ == remaining_dots(dots@, player),
        kept@.len() <= dots@.len(),
{
    let mut kept: Vec<Point> = Vec::new();
    let mut i: usize = 0;
    while i < dots.len()
        invariant
            0 <= i <= dots@.len(),
            kept@ == remaining_dots(dots@.subrange(0, i as int), player),
            kept@.len() <= i,
        decreases dots@.len() - i,
    {
        let d = dots[i];
        proof {
            assert(dots@.subrange(0, i + 1) =~= dots@.subrange(0, i as int).push(d));
            dots@.subrange(0, i as int).lemma_filter_push(d, out_of_reach(player));
        }
        if !is_within_reach(d, player) {
            kept.push(d);
        }
        i += 1;
    }
    assert(dots@.subrange(0, dots@.len() as int) =~= dots@);
    kept
}

/// The dots of the standard layout.
pub fn initial_dots() -> (r: Vec<Point>)
    ensures
        r@ == standard_layout(),
{
    let mut dots: Vec<Point> = Vec::new();
    let mut x: u32 = 1;
    while x < GRID_SIZE - 1
        invariant
            1 <= x <= GRID_SIZE - 1,
            dots@.len() == DOTS_PER_SIDE * (x - 1),
            forall|k: int| 0 <= k < dots@.len() ==> dots@[k] == standard_dot(k),
        decreases GRID_SIZE - x,
    {
        let mut y: u32 = 1;
        while y < GRID_SIZE - 1
            invariant
                1 <= x < GRID_SIZE - 1,
                1 <= y <= GRID_SIZE - 1,
                dots@.len() == DOTS_PER_SIDE * (x - 1) + (y - 1),
                forall|k: int| 0 <= k < dots@.len() ==> dots@[k] == standard_dot(k),
            decreases GRID_SIZE - y,
        {
            proof {
                lemma_fundamental_div_mod_converse(
                    dots@.len() as int,
                    DOTS_PER_SIDE as int,
                    x - 1,
                    y - 1,
                );
            }
            dots.push(Point { x: x * CELL_SIZE, y: y * CELL_SIZE });
            y += 1;
        }
        x += 1;
    }
    assert(dots@ =~= standard_layout());
    dots
}

/// The "play again" button shown once the game is won.
pub fn play_again_button() -> (r: Rect)
    ensures
        r == play_again_rect(),
{
    Rect { x: 300, y: 360, width: 200, height: 50 }
}

/// The vector of the direction being applied, or zero where there is none.
fn heading_of(current: Option<Direction>) -> (r: Vector)
    ensures
        r == heading(DirectionController { queued_direction: None, current_direction: current }),
{
    match current {
        Some(d) => d.to_vec2(),
        None => Vector { x: 0, y: 0 },
    }
}

/// Advances the mouth animation by one tick.
fn next_mouth(angle: i32, opening: bool, moving: bool) -> (r: (i32, bool))
    requires
        mouth_ok(angle as int, opening),
    ensures
        (r.0 as int, r.1) == mouth_step(angle as int, opening, moving),
        mouth_ok(r.0 as int, r.1),
{
    if !moving {
        (0, true)
    } else if opening {
        let a = angle + MOUTH_SPEED;
        (a, a < MAX_MOUTH_ANGLE)
    } else {
        let a = angle - MOUTH_SPEED;
        (a, a <= 0)
    }
}

impl GameState {
    #[verifier::type_invariant]
    spec fn inv(self) -> bool {
        &&& 0 <= self.score
        &&& self.score + DOT_SCORE * self.dots@.len() <= i32::MAX
        &&& DOT_SCORE * self.layout@.len() <= i32::MAX
        &&& mouth_ok(self.pacman.mouth_angle as int, self.pacman.mouth_opening)
    }

    /// A game on the standard layout.
    pub fn new() -> (r: GameState)
        ensures
            r@ == initial_model(start_position(), standard_layout()),
    {
        let start = Point { x: CELL_SIZE, y: CELL_SIZE * GRID_SIZE / 2 };
        GameState::with_layout(start, initial_dots())
    }

    /// A game with the player at `start` and the dots of `dots`.
    pub fn with_layout(start: Point, dots: Vec<Point>) -> (r: GameState)
        requires
            DOT_SCORE * dots@.len() <= i32::MAX,
        ensures
            r@ == initial_model(start, dots@),
    {
        let current = copy_points(&dots);
        GameState {
            pacman: GameObject { pos: start, mouth_angle: 0, mouth_opening: true },
            dots: current,
            score: 0,
            direction_controller: DirectionController::new(),
            game_won: false,
            start,
            layout: dots,
        }
    }

    /// Restores the starting position and dots, and clears the score, the
    /// directions and the win.
    pub fn reset(&mut self)
        ensures
            final(self)@ == reset_model(old(self)@),
    {
        proof {
            use_type_invariant(&*self);
        }
        self.score = 0;
        self.dots = copy_points(&self.layout);
        self.pacman = GameObject { pos: self.start, mouth_angle: 0, mouth_opening: true };
        self.game_won = false;
        self.direction_controller = DirectionController::new();
    }

    /// Advances the game by one tick; nothing changes once the game is won.
    pub fn update(&mut self)
        ensures
            final(self)@ == tick(old(self)@),
    {
        proof {
            use_type_invariant(&*self);
        }
        if self.game_won {
            return;
        }
        let pos = self.pacman.pos;
        let mut controller = self.direction_controller;
        let current = controller.update(pos);
        let v = heading_of(current);
        let speed = PACMAN_SPEED as i64;
        let new_pos = Point {
            x: clamp_to_bounds(pos.x as i64 + v.x as i64 * speed),
            y: clamp_to_bounds(pos.y as i64 + v.y as i64 * speed),
        };
        let kept = collect_dots(&self.dots, new_pos);
        let removed = self.dots.len() - kept.len();
        let score = self.score + DOT_SCORE * (removed as i32);
        let won = kept.len() == 0;
        let mouth = next_mouth(
            self.pacman.mouth_angle,
            self.pacman.mouth_opening,
            v.x != 0 || v.y != 0,
        );
        self.direction_controller = controller;
        self.dots = kept;
        self.score = score;
        self.game_won = won;
        self.pacman = GameObject { pos: new_pos, mouth_angle: mouth.0, mouth_opening: mouth.1 };
    }

    /// Asks for a change of direction, applied at the next grid-aligned tick.
    pub fn queue_direction(&mut self, direction: Direction)
        ensures
            final(self)@ == (GameModel {
                controller: DirectionController {
                    queued_direction: Some(direction),
                    ..old(self)@.controller
                },
                ..old(self)@
            }),
    {
        proof {
            use_type_invariant(&*self);
        }
        let mut controller = self.direction_controller;
        controller.queue_direction(direction);
        self.direction_controller = controller;
    }

    /// Queues the direction that the key named `key` asks for; other keys
    /// change nothing.
    pub fn handle_keydown(&mut self, key: &str)
        ensures
            final(self)@ == match key_direction(key@) {
                Some(d) => GameModel {
                    controller: DirectionController {
                        queued_direction: Some(d),
                        ..old(self)@.controller
                    },
                    ..old(self)@
                },
                None => old(self)@,
            },
    {
        if let Some(d) = direction_for_key(key) {
            self.queue_direction(d);
        }
    }

    /// A mouse press at (`x`, `y`): a press of the left button on the "play
    /// again" button of a won game resets it; anything else changes nothing.
    pub fn mouse_button_down_event(&mut self, left_button: bool, x: u32, y: u32)
        ensures
            final(self)@ == if old(self)@.game_won && left_button && in_rect(
                Point { x, y },
                play_again_rect(),
            ) {
                reset_model(old(self)@)
            } else {
                old(self)@
            },
    {
        if self.game_won && left_button && is_point_in_rect(Point { x, y }, play_again_button()) {
            self.reset();
        }
    }

    /// The player's position.
    pub fn pos(&self) -> (r: Point)
        ensures
            r == self@.pos,
    {
        self.pacman.pos
    }

    /// The vector the player moves along; zero before any direction applies.
    pub fn direction(&self) -> (r: Vector)
        ensures
            r == heading(self@.controller),
    {
        heading_of(self.direction_controller.current_direction)
    }

    /// The mouth opening, in tenths of a radian.
    pub fn mouth_angle(&self) -> (r: i32)
        ensures
            r as int == self@.mouth_angle,
    {
        self.pacman.mouth_angle
    }

    /// Whether the mouth is opening (rather than closing).
    pub fn mouth_opening(&self) -> (r: bool)
        ensures
            r == self@.mouth_opening,
    {
        self.pacman.mouth_opening
    }

    /// The dots still to collect.
    pub fn dots(&self) -> (r: &Vec<Point>)
        ensures
            r@ == self@.dots,
    {
        &self.dots
    }

    /// Points earned so far.
    pub fn score(&self) -> (r: i32)
        ensures
            r as int == self@.score,
    {
        self.score
    }

    /// Whether every dot has been collected.
    pub fn game_won(&self) -> (r: bool)
        ensures
            r == self@.game_won,
    {
        self.game_won
    }

    /// The queued and the applied direction.
    pub fn direction_controller(&self) -> (r: DirectionController)
        ensures
            r == self@.controller,
    {
        self.direction_controller
    }
}

} // verus!
