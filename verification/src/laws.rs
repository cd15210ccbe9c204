//! Laws of the match, proved from the model alone.

use vstd::prelude::*;
use crate::cell::Cell;
use crate::direction::Direction;
use crate::game::{
    binding, follows, player_1_color, player_2_color, wrap, GameView, Key, Players, RESTART_TIME,
};
use crate::snake::SnakeView;

verus! {

/// An intent that points against the mover's heading leaves the whole match
/// as it was, the snake included.
pub proof fn reversal_is_discarded(g: GameView, who: Players)
    ensures
        g.applied(who, g.player(who).heading.opposite()) == g,
{
}

/// A snake told to turn around steps on along its heading, as if it had
/// been told nothing.
pub proof fn snake_ignores_reversal(s: SnakeView)
    ensures
        s.moved(Some(s.heading.opposite())) == s.moved(None),
{
}

/// A step adds one cell to the body if growth was scheduled and keeps its
/// length otherwise; either way no growth is scheduled afterwards.
pub proof fn step_length(s: SnakeView, intent: Option<Direction>)
    requires
        s.wf(),
    ensures
        s.moved(intent).wf(),
        !s.moved(intent).pending_growth,
        s.moved(intent).body.len() == s.body.len() + if s.pending_growth {
            1int
        } else {
            0int
        },
{
}

/// The effect on length and score of an intent that is neither discarded
/// nor fatal. The mover's body grows by one cell if it ate on its previous
/// step and keeps its length otherwise. If the new head lies on food, the
/// food is eaten: the score goes up by one, the food is gone and growth is
/// scheduled for the mover's next step. The other snake is not touched.
pub proof fn growth_follows_eating(g: GameView, who: Players, d: Direction)
    requires
        g.player(who).wf(),
        d != g.player(who).heading.opposite(),
        g.alive_after(who, Some(d)),
    ensures
        ({
            let after = g.applied(who, d);
            let ate = g.food_exists && after.player(who).head() == g.food;
            &&& after.player(who).body.len() == g.player(who).body.len() + if g.player(
                who,
            ).pending_growth {
                1int
            } else {
                0int
            }
            &&& after.player(who).pending_growth == ate
            &&& after.score == g.score + if ate {
                1int
            } else {
                0int
            }
            &&& after.food_exists == (g.food_exists && !ate)
            &&& after.food == g.food
            &&& who == Players::PlayerOne ==> after.player_2 == g.player_2
            &&& who == Players::PlayerTwo ==> after.player_1 == g.player_1
        }),
{
}

/// An intent that is not a reversal and would run the mover into its own
/// body ends the match and resets the clock. Neither body changes, nor does
/// anything else.
pub proof fn collision_ends_match(g: GameView, who: Players, d: Direction)
    requires
        d != g.player(who).heading.opposite(),
        g.player(who).overlaps(g.player(who).next_head(Some(d))),
    ensures
        g.applied(who, d) == (GameView { game_over: true, waiting_time: 0, ..g }),
        g.applied(who, d).game_over,
        g.applied(who, d).player_1 == g.player_1,
        g.applied(who, d).player_2 == g.player_2,
{
}

/// A match ends through a collision and through nothing else: after an
/// intent the match is over exactly if it was over before or the intent,
/// not being a reversal, would run the mover into its own body.
pub proof fn only_collision_ends_match(g: GameView, who: Players, d: Direction)
    ensures
        g.applied(who, d).game_over <==> g.game_over || (d != g.player(who).heading.opposite()
            && !g.alive_after(who, Some(d))),
{
}

/// The clock is reset by every intent that is not discarded and left alone
/// by one that is.
pub proof fn clock_is_reset_by_intents(g: GameView, who: Players, d: Direction)
    ensures
        g.applied(who, d).waiting_time == if d == g.player(who).heading.opposite() {
            g.waiting_time
        } else {
            0
        },
{
}

/// Wrapping leaves a cell on the grid alone and puts a cell that is off
/// the grid on one axis onto the grid, at the edge opposite to the one it
/// left by, keeping its other coordinate.
pub proof fn wrap_moves_to_opposite_edge(g: GameView, c: Cell)
    requires
        0 <= g.width,
        0 <= g.height,
    ensures
        g.on_grid(c) ==> wrap(c, g.width, g.height) == c,
        c.x < 0 && 0 <= c.y <= g.height ==> wrap(c, g.width, g.height) == (Cell {
            x: g.width,
            y: c.y,
        }),
        c.x > g.width && 0 <= c.y <= g.height ==> wrap(c, g.width, g.height) == (Cell {
            x: 0,
            y: c.y,
        }),
        c.y < 0 && 0 <= c.x <= g.width ==> wrap(c, g.width, g.height) == (Cell {
            x: c.x,
            y: g.height,
        }),
        c.y > g.height && 0 <= c.x <= g.width ==> wrap(c, g.width, g.height) == (Cell {
            x: c.x,
            y: 0,
        }),
        0 <= c.x <= g.width || 0 <= c.y <= g.height ==> g.on_grid(wrap(c, g.width, g.height)),
{
}

/// A step that is taken starts from the wrapped head. The head is put back
/// onto the grid before the step, so the new head lies one step from the
/// wrapped cell, the wrapped cell is what stays in the body behind it, and
/// it is the new head that is held against the food.
pub proof fn step_starts_from_wrapped_head(g: GameView, who: Players, d: Direction)
    requires
        g.player(who).wf(),
        d != g.player(who).heading.opposite(),
        g.alive_after(who, Some(d)),
    ensures
        ({
            let from = wrap(g.player(who).head(), g.width, g.height);
            let after = g.applied(who, d);
            let body = after.player(who).body;
            &&& after.player(who).heading == d
            &&& after.player(who).head() == from.step(d)
            &&& body.len() >= 2 ==> body[body.len() - 2] == from
            &&& after.score == g.score + 1 <==> g.food_exists && from.step(d) == g.food
        }),
{
}

/// Nothing but the making of a match sets the bounds of its grid: an
/// intent, a key press, a restart and every outcome of a tick leave them as
/// they are.
pub proof fn bounds_are_fixed(
    g: GameView,
    who: Players,
    d: Direction,
    key: Key,
    delta: int,
    after: GameView,
)
    ensures
        g.applied(who, d).width == g.width && g.applied(who, d).height == g.height,
        g.key_applied(key).width == g.width && g.key_applied(key).height == g.height,
        g.restarted().width == g.width && g.restarted().height == g.height,
        g.may_update_to(delta, after) ==> after.width == g.width && after.height == g.height,
{
}

/// Food that a search has laid lies in the interior of the grid, on a cell
/// that the first player's body does not cover.
pub proof fn new_food_is_clear_of_first_player(g: GameView, after: GameView)
    requires
        !g.food_exists,
        g.may_feed_to(after),
        after.food_exists,
    ensures
        after.in_interior(after.food),
        !after.player_1.overlaps(after.food),
{
}

/// The food a match starts with, at first and after a restart, lies on a
/// cell that the first player's body does not cover.
pub proof fn first_food_is_clear_of_first_player(g: GameView, width: int, height: int)
    ensures
        GameView::fresh(width, height).food_exists,
        !GameView::fresh(width, height).player_1.overlaps(GameView::fresh(width, height).food),
        g.restarted().food_exists,
        !g.restarted().player_1.overlaps(g.restarted().food),
{
}

/// A restart gives a running match that depends on nothing but the grid
/// bounds and the score, which it keeps: both snakes, the food and the clock
/// are set to fixed values.
pub proof fn restart_gives_fixed_start(a: GameView, b: GameView)
    requires
        a.width == b.width,
        a.height == b.height,
        a.score == b.score,
    ensures
        a.restarted() == b.restarted(),
        !a.restarted().game_over,
        a.restarted().waiting_time == 0,
        a.restarted().score == a.score,
        a.restarted().width == a.width,
        a.restarted().height == a.height,
        a.restarted().food_exists,
        a.restarted().food == (Cell { x: 6, y: 4 }),
        a.restarted().player_1 == SnakeView::fresh(Cell { x: 2, y: 2 }, player_1_color()),
        a.restarted().player_2 == SnakeView::fresh(Cell { x: 3, y: 3 }, player_2_color()),
{
}

/// Restarting twice is the same as restarting once.
pub proof fn restart_is_idempotent(g: GameView)
    ensures
        g.restarted().restarted() == g.restarted(),
{
}

/// A finished match whose clock passes the restart time restarts on the
/// next tick, and the tick does nothing else.
pub proof fn finished_match_restarts_when_due(g: GameView, delta: int, after: GameView)
    requires
        g.game_over,
        g.waited(delta).waiting_time > RESTART_TIME,
        g.may_update_to(delta, after),
    ensures
        after == g.restarted(),
{
}

/// Putting a head back onto the grid keeps the match well formed.
pub proof fn wrapping_keeps_wf(g: GameView, who: Players)
    requires
        g.wf(),
    ensures
        g.head_wrapped(who).wf(),
{
}

/// An intent keeps the match well formed, whatever becomes of it.
pub proof fn intent_keeps_wf(g: GameView, who: Players, d: Direction)
    requires
        g.wf(),
    ensures
        g.applied(who, d).wf(),
{
    if d != g.player(who).heading.opposite() && g.alive_after(who, Some(d)) {
        let wrapped = g.head_wrapped(who);
        wrapping_keeps_wf(g, who);
        let stepped = wrapped.with_player(who, wrapped.player(who).moved(Some(d)));
        assert(stepped.player(who).head() == wrapped.player(who).head().step(d));
        assert(stepped.wf());
        assert(stepped.fed(who).wf());
    }
}

/// Eating, laying food, waiting, restarting and the autonomous steps keep
/// the match well formed.
pub proof fn wf_is_kept(g: GameView, who: Players, c: Cell, delta: int)
    requires
        g.wf(),
    ensures
        g.fed(who).wf(),
        g.with_food(c).wf(),
        g.waited(delta).wf(),
        g.restarted().wf(),
        g.advanced().wf(),
        g.advanced_if_due().wf(),
{
    let first = g.applied(Players::PlayerOne, g.player_1.heading);
    intent_keeps_wf(g, Players::PlayerOne, g.player_1.heading);
    intent_keeps_wf(first, Players::PlayerTwo, first.player_2.heading);
}

/// Every outcome of a tick is well formed if the match was.
pub proof fn tick_keeps_wf(g: GameView, delta: int, after: GameView)
    requires
        g.wf(),
        g.may_update_to(delta, after),
    ensures
        after.wf(),
{
    let waited = g.waited(delta);
    wf_is_kept(g, Players::PlayerOne, after.food, delta);
    wf_is_kept(waited, Players::PlayerOne, after.food, 0);
    if !g.game_over && !g.food_exists {
        let fed = choose|fed: GameView| #[trigger]
            waited.may_feed_to(fed) && after == fed.advanced_if_due();
        wf_is_kept(fed, Players::PlayerOne, after.food, 0);
    }
}

/// A match starts, and starts over, with bodies that hang together.
pub proof fn start_is_connected(g: GameView, width: int, height: int, who: Players)
    ensures
        GameView::fresh(width, height).connected(who),
        g.restarted().connected(who),
{
}

/// An intent keeps the bodies together: a body that hangs together before
/// the intent does so after it, whether it is the mover's or not. So the
/// cells of a body are always neighbours, directly or across an edge of the
/// grid, and a snake never heads back into the cell behind its head.
pub proof fn intent_keeps_connected(g: GameView, who: Players, d: Direction, body_of: Players)
    requires
        g.player(who).wf(),
        g.connected(body_of),
    ensures
        g.applied(who, d).connected(body_of),
{
    let after = g.applied(who, d);
    if body_of == who && d != g.player(who).heading.opposite() && g.alive_after(who, Some(d)) {
        let old_body = g.player(who).body;
        let new_body = after.player(who).body;
        let from = wrap(g.player(who).head(), g.width, g.height);
        let n = old_body.len() as int;
        let shift: int = if g.player(who).pending_growth { 0 } else { 1 };
        assert(new_body.len() == n + 1 - shift);
        assert forall|i: int| 0 <= i < new_body.len() - 2 implies follows(
            #[trigger] new_body[i],
            new_body[i + 1],
            after.width,
            after.height,
        ) by {
            let j = i + shift;
            assert(new_body[i] == old_body[j]);
            if j + 1 < n - 1 {
                assert(new_body[i + 1] == old_body[j + 1]);
                assert(follows(old_body[j], old_body[j + 1], g.width, g.height));
            } else {
                assert(new_body[i + 1] == from);
                assert(g.player(who).head() == old_body[j].step(g.player(who).heading));
            }
        }
    }
}

/// A key press keeps the match well formed and its bodies together.
pub proof fn key_keeps_invariants(g: GameView, key: Key, body_of: Players)
    requires
        g.wf(),
    ensures
        g.key_applied(key).wf(),
        g.connected(body_of) ==> g.key_applied(key).connected(body_of),
{
    if !g.game_over {
        match binding(key) {
            Some(intent) => {
                intent_keeps_wf(g, intent.player, intent.direction);
                if g.connected(body_of) {
                    intent_keeps_connected(g, intent.player, intent.direction, body_of);
                }
            },
            None => {},
        }
    }
}

/// Every outcome of a tick has bodies that hang together if the match had.
pub proof fn tick_keeps_connected(g: GameView, delta: int, after: GameView, body_of: Players)
    requires
        g.wf(),
        g.connected(body_of),
        g.may_update_to(delta, after),
    ensures
        after.connected(body_of),
{
    let waited = g.waited(delta);
    if g.game_over {
        start_is_connected(waited, g.width, g.height, body_of);
    } else {
        let fed = if g.food_exists {
            waited
        } else {
            choose|fed: GameView| #[trigger]
                waited.may_feed_to(fed) && after == fed.advanced_if_due()
        };
        assert(fed.connected(body_of));
        let first = fed.applied(Players::PlayerOne, fed.player_1.heading);
        intent_keeps_wf(fed, Players::PlayerOne, fed.player_1.heading);
        intent_keeps_connected(fed, Players::PlayerOne, fed.player_1.heading, body_of);
        intent_keeps_connected(first, Players::PlayerTwo, first.player_2.heading, body_of);
    }
}

} // verus!
