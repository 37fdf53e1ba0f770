use vstd::prelude::*;

use crate::direction::resolve;
use crate::game::{
    heading, initial_model, moved, out_of_reach, reset_model, tick, GameModel, DOT_SCORE,
};
use crate::geometry::{grid_aligned, within_reach, Point};

verus! {

/// The state after `n` ticks.
pub open spec fn ticks(m: GameModel, n: nat) -> GameModel
    decreases n,
{
    if n == 0 {
        m
    } else {
        tick(ticks(m, (n - 1) as nat))
    }
}

/// The score never goes down, over any number of ticks.
pub proof fn lemma_score_never_decreases(m: GameModel, n: nat)
    ensures
        ticks(m, n).score >= m.score,
    decreases n,
{
    if n > 0 {
        lemma_score_never_decreases(m, (n - 1) as nat);
        let p = ticks(m, (n - 1) as nat);
        if !p.game_won {
            let pos = moved(p.pos, heading(resolve(p.controller, p.pos)));
            p.dots.lemma_filter_len(out_of_reach(pos));
        }
    }
}

/// Once the game is won, ticks leave the whole state as it is.
pub proof fn lemma_won_game_is_frozen(m: GameModel, n: nat)
    requires
        m.game_won,
    ensures
        ticks(m, n) == m,
    decreases n,
{
    if n > 0 {
        lemma_won_game_is_frozen(m, (n - 1) as nat);
    }
}

/// A dot leaves in a tick exactly when it lies within reach of the player's
/// position after the move, and each dot that leaves adds to the score.
pub proof fn lemma_dot_removed_iff_within_reach(m: GameModel, d: Point)
    requires
        !m.game_won,
        m.dots.contains(d),
    ensures
        !tick(m).dots.contains(d) <==> within_reach(d, tick(m).pos),
        tick(m).score == m.score + DOT_SCORE * (m.dots.len() - tick(m).dots.len()),
{
    let pos = tick(m).pos;
    let keep = out_of_reach(pos);
    if within_reach(d, pos) {
        if m.dots.filter(keep).contains(d) {
            let i = choose|i: int| 0 <= i < m.dots.filter(keep).len() && m.dots.filter(keep)[i] == d;
            m.dots.lemma_filter_pred(keep, i);
        }
    } else {
        m.dots.lemma_filter_contains_rev(keep, d);
    }
}

/// Over a tick in which the player does not move, a dot leaves exactly when
/// it lies within reach of the player's position before the tick.
pub proof fn lemma_dot_removed_iff_within_reach_before(m: GameModel, d: Point)
    requires
        !m.game_won,
        m.dots.contains(d),
        tick(m).pos == m.pos,
    ensures
        !tick(m).dots.contains(d) <==> within_reach(d, m.pos),
{
    lemma_dot_removed_iff_within_reach(m, d);
}

/// The applied direction, and with it the player's heading, changes only in a
/// tick that starts at a grid-aligned position.
pub proof fn lemma_direction_changes_only_when_aligned(m: GameModel)
    ensures
        tick(m).controller.current_direction != m.controller.current_direction ==> grid_aligned(
            m.pos,
        ),
        heading(tick(m).controller) != heading(m.controller) ==> grid_aligned(m.pos),
{
}

/// Ticks keep where the game starts and the dots it starts with.
proof fn lemma_ticks_keep_layout(m: GameModel, n: nat)
    ensures
        ticks(m, n).start == m.start,
        ticks(m, n).layout == m.layout,
    decreases n,
{
    if n > 0 {
        lemma_ticks_keep_layout(m, (n - 1) as nat);
    }
}

/// After any number of ticks from a fresh game, a reset brings back that fresh
/// game: the starting position and dots, a zero score, no directions and no
/// win.
pub proof fn lemma_reset_restores_start(start: Point, layout: Seq<Point>, n: nat)
    ensures
        reset_model(ticks(initial_model(start, layout), n)) == initial_model(start, layout),
        reset_model(ticks(initial_model(start, layout), n)).pos == start,
        reset_model(ticks(initial_model(start, layout), n)).dots == layout,
        reset_model(ticks(initial_model(start, layout), n)).score == 0,
        !reset_model(ticks(initial_model(start, layout), n)).game_won,
        reset_model(ticks(initial_model(start, layout), n)).controller.queued_direction is None,
        reset_model(ticks(initial_model(start, layout), n)).controller.current_direction is None,
{
    lemma_ticks_keep_layout(initial_model(start, layout), n);
}

} // verus!
