use vstd::prelude::*;
use crate::game::{
    GameContext, PlayerDirection, cell_in_bounds, delta_x, delta_y, opposite, point_in_bounds,
    set_direction_rel, tick_rel, unchanged,
};

verus! {

/// Turning toward any direction other than the reverse of the current
/// heading and then ticking over a clear path moves the head by exactly that
/// direction's unit delta.
pub proof fn lemma_turn_then_tick_moves_head(
    pre: GameContext,
    mid: GameContext,
    post: GameContext,
    d: PlayerDirection,
)
    requires
        pre.body().len() >= 1,
        pre.state is Playing,
        d != opposite(pre.player_direction),
        set_direction_rel(pre, d, mid),
        tick_rel(mid, post),
        !mid.next_blocked(),
    ensures
        post.body().len() >= 1,
        post.head().0 as int == pre.head().0 + delta_x(d),
        post.head().1 as int == pre.head().1 + delta_y(d),
{
    assert(mid.player_direction == d);
    assert(post.head() == mid.next_head());
}

/// Commanding the reverse of the current heading is a no-op whenever the
/// body has more than one segment.
pub proof fn lemma_reverse_turn_is_noop(pre: GameContext, post: GameContext, d: PlayerDirection)
    requires
        pre.body().len() > 1,
        d == opposite(pre.player_direction),
        set_direction_rel(pre, d, post),
    ensures
        unchanged(pre, post),
{
}

/// Across any chain of ticks the body never shrinks: each tick either leaves
/// the body alone, trades the vacated tail cell for a new head cell, or
/// grows the body by one.
pub proof fn lemma_ticks_never_shrink(states: Seq<GameContext>, i: int, j: int)
    requires
        0 <= i <= j < states.len(),
        forall|k: int|
            0 <= k < states.len() - 1 ==> tick_rel(#[trigger] states[k], states[k + 1]),
    ensures
        states[i].body().len() <= states[j].body().len(),
    decreases j - i,
{
    if i < j {
        lemma_ticks_never_shrink(states, i, j - 1);
        assert(tick_rel(states[j - 1], states[j]));
    }
}

/// A tick that lands the head on the food grows the body by exactly one
/// segment and leaves the food somewhere on the grid.
pub proof fn lemma_eating_grows(pre: GameContext, post: GameContext)
    requires
        pre.state is Playing,
        tick_rel(pre, post),
        !pre.next_blocked(),
        pre.next_eats(),
    ensures
        post.body().len() == pre.body().len() + 1,
        point_in_bounds(post.food),
{
}

/// A tick whose next head cell lies off the grid ends the game and leaves
/// the body, the food and the heading exactly as they were.
pub proof fn lemma_leaving_grid_ends_game(pre: GameContext, post: GameContext)
    requires
        pre.state is Playing,
        tick_rel(pre, post),
        !cell_in_bounds(pre.next_head_x(), pre.next_head_y()),
    ensures
        post.state is GameOver,
        post.body() == pre.body(),
        post.food == pre.food,
        post.player_direction == pre.player_direction,
{
}

/// While paused, and once the game is over, a tick changes nothing at all.
pub proof fn lemma_tick_idle_when_not_playing(pre: GameContext, post: GameContext)
    requires
        !(pre.state is Playing),
        tick_rel(pre, post),
    ensures
        unchanged(pre, post),
{
}

/// A tick whose next head cell is taken by a strictly interior body cell
/// (the vacating tail excluded) ends the game with the body, the food and
/// the heading untouched.
pub proof fn lemma_self_collision_ends_game(pre: GameContext, post: GameContext)
    requires
        pre.state is Playing,
        tick_rel(pre, post),
        pre.hits_body(),
    ensures
        post.state is GameOver,
        post.body() == pre.body(),
        post.food == pre.food,
        post.player_direction == pre.player_direction,
{
}

} // verus!
