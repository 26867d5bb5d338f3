use crate::block::{
    cell_filled, index_at, layout, lemma_struck_adds_nothing, lemma_struck_removes_weakest, occupied,
};
use crate::config::ConfigView;
use crate::game::{lemma_fresh_inv, lemma_stepped_times_inv, GameView, Status};
use crate::random::{lemma_roll_in_range, lemma_state_in_range, state_after};
use vstd::prelude::*;

verus! {

/// After a tick the entities are where they belong: the game is still
/// valid, a bar that fits into the field lies wholly inside it, and in a
/// field that has cells the ball stands in one of them. This holds even
/// for the tick that ends the game, because a falling ball stays put.
pub proof fn lemma_tick_stays_in_field(game: GameView)
    requires
        game.inv(),
    ensures
        game.ticked().inv(),
        game.ticked().field_width == game.field_width,
        game.ticked().field_height == game.field_height,
        game.field_width >= game.bar.width ==> 0 <= game.ticked().bar.x <= game.field_width
            - game.ticked().bar.width,
        game.field_width > 0 && game.field_height > 0 ==> 0 <= game.ticked().ball.x < game.field_width
            && 0 <= game.ticked().ball.y < game.field_height,
{
    lemma_steps_keep_frame(game, game.ball.power as nat);
}

/// Unit steps keep the invariant and never touch the field's size, the
/// bar, the configuration, the generator or the ball's power.
pub proof fn lemma_steps_keep_frame(game: GameView, count: nat)
    requires
        game.inv(),
    ensures
        game.stepped_times(count).inv(),
        game.stepped_times(count).field_width == game.field_width,
        game.stepped_times(count).field_height == game.field_height,
        game.stepped_times(count).bar == game.bar,
        game.stepped_times(count).config == game.config,
        game.stepped_times(count).generator == game.generator,
        game.stepped_times(count).ball.power == game.ball.power,
    decreases count,
{
    lemma_stepped_times_inv(game, count);
    if count > 0 {
        lemma_steps_keep_frame(game, (count - 1) as nat);
    }
}

/// Whatever is done to a valid game leaves a valid game: a tick, a bar
/// move, a pause, a reset, and a resize to any size a terminal can have.
pub proof fn lemma_every_move_keeps_the_game_valid(game: GameView, width: int, height: int)
    requires
        game.inv(),
        0 <= width <= u16::MAX,
        0 <= height <= u16::MAX,
    ensures
        game.ticked().inv(),
        game.bar_moved_left().inv(),
        game.bar_moved_right().inv(),
        game.pause_toggled().inv(),
        game.restarted().inv(),
        game.resized(width, height).inv(),
{
    lemma_stepped_times_inv(game, game.ball.power as nat);
    lemma_fresh_inv(game.field_width, game.field_height, game.config, game.generator);
}

/// A game that is not running does not move: any number of unit steps,
/// and so a tick, leaves every part of it as it was.
pub proof fn lemma_idle_tick_changes_nothing(game: GameView, count: nat)
    requires
        game.status != Status::Running,
    ensures
        game.stepped_times(count) == game,
        game.ticked() == game,
    decreases count,
{
    if count > 0 {
        lemma_idle_tick_changes_nothing(game, (count - 1) as nat);
    }
}

/// A ball on its way down that reaches a cell of the bar leaves that step
/// on its way up. With a power of one that step is the whole tick.
pub proof fn lemma_bar_reflects(game: GameView)
    requires
        game.inv(),
        game.status == Status::Running,
        game.ball.dy == 1,
        game.bar.covers(game.ball.advanced(game.field_width).x, game.ball.advanced(game.field_width).y),
    ensures
        !game.ball.falls(game.field_height),
        game.stepped().ball.dy == -1,
        game.stepped().ball.dx == game.ball.advanced(game.field_width).dx,
        game.ball.power == 1 ==> game.ticked().ball.dy == -1,
{
    assert(game.stepped_times(1) == game.stepped_times(0).stepped());
}

/// Whatever the ball's power: a tick of a running game that does not end
/// it and leaves the ball on a cell of the bar leaves the ball on its way
/// up.
pub proof fn lemma_tick_ends_on_bar_going_up(game: GameView)
    requires
        game.inv(),
        game.status == Status::Running,
    ensures
        game.ticked().status != Status::GameOver && game.ticked().bar.covers(
            game.ticked().ball.x,
            game.ticked().ball.y,
        ) ==> game.ticked().ball.dy == -1,
{
    lemma_steps_end_on_bar_going_up(game, game.ball.power as nat);
}

/// The same after any positive number of unit steps; a running game is
/// never paused by its steps.
pub proof fn lemma_steps_end_on_bar_going_up(game: GameView, count: nat)
    requires
        game.inv(),
        game.status == Status::Running,
        count >= 1,
    ensures
        game.stepped_times(count).status != Status::Paused,
        game.stepped_times(count).status != Status::GameOver && game.stepped_times(count).bar.covers(
            game.stepped_times(count).ball.x,
            game.stepped_times(count).ball.y,
        ) ==> game.stepped_times(count).ball.dy == -1,
    decreases count,
{
    let before = game.stepped_times((count - 1) as nat);
    if count > 1 {
        lemma_steps_end_on_bar_going_up(game, (count - 1) as nat);
    }
    assert(game.stepped_times(count) == before.stepped());
}

/// Unit steps never bring a block into a cell that was free.
pub proof fn lemma_steps_add_no_block(game: GameView, count: nat, x: int, y: int)
    requires
        occupied(game.stepped_times(count).blocks, x, y),
    ensures
        occupied(game.blocks, x, y),
    decreases count,
{
    if count > 0 {
        let before = game.stepped_times((count - 1) as nat);
        if before.status == Status::Running && !before.ball.falls(before.field_height) {
            let moved = before.ball.advanced(before.field_width);
            lemma_struck_adds_nothing(before.blocks, moved.x, moved.y, x, y);
        }
        lemma_steps_add_no_block(game, (count - 1) as nat, x, y);
    }
}

/// A block with one point of strength left that the ball reaches is gone
/// after that step, and stays gone for the rest of the tick.
pub proof fn lemma_weakest_block_leaves(game: GameView)
    requires
        game.inv(),
        game.status == Status::Running,
        !game.ball.falls(game.field_height),
        occupied(
            game.blocks,
            game.ball.advanced(game.field_width).x,
            game.ball.advanced(game.field_width).y,
        ),
        game.blocks[index_at(
            game.blocks,
            game.ball.advanced(game.field_width).x,
            game.ball.advanced(game.field_width).y,
        )].strength == 1,
    ensures
        !occupied(
            game.stepped().blocks,
            game.ball.advanced(game.field_width).x,
            game.ball.advanced(game.field_width).y,
        ),
        game.stepped().blocks.len() == game.blocks.len() - 1,
        !occupied(
            game.ticked().blocks,
            game.ball.advanced(game.field_width).x,
            game.ball.advanced(game.field_width).y,
        ),
{
    let moved = game.ball.advanced(game.field_width);
    lemma_struck_removes_weakest(game.blocks, moved.x, moved.y);
    lemma_later_steps_add_no_block(game, game.ball.power as nat, moved.x, moved.y);
}

/// A cell that is free after the first unit step is free after every
/// later one.
pub proof fn lemma_later_steps_add_no_block(game: GameView, count: nat, x: int, y: int)
    requires
        count >= 1,
        !occupied(game.stepped().blocks, x, y),
    ensures
        !occupied(game.stepped_times(count).blocks, x, y),
    decreases count,
{
    assert(game.stepped_times(1) == game.stepped_times(0).stepped());
    if count > 1 {
        lemma_later_steps_add_no_block(game, (count - 1) as nat, x, y);
        let before = game.stepped_times((count - 1) as nat);
        if occupied(before.stepped().blocks, x, y) {
            assert(before.stepped() == before.stepped_times(0).stepped());
            assert(before.stepped() == before.stepped_times(1));
            lemma_steps_add_no_block(before, 1, x, y);
        }
    }
}

/// A reset builds the game exactly as construction does, from the same
/// bar width, the same field size and the same parameters for the blocks.
/// Only the seed differs: the layout is drawn from where the generator
/// stands, so the blocks may lie elsewhere.
pub proof fn lemma_reset_restores_parameters(game: GameView)
    requires
        game.inv(),
    ensures
        game.restarted() == GameView::fresh(game.field_width, game.field_height, game.config, game.generator),
        game.restarted().inv(),
        game.restarted().status == Status::Running,
        game.restarted().config == game.config,
        game.restarted().field_width == game.field_width,
        game.restarted().field_height == game.field_height,
        game.restarted().bar.width == game.bar.width,
        game.restarted().ball.power == game.ball.power,
        game.restarted().blocks == layout(
            game.field_width,
            game.config.block_density,
            game.config.block_strength,
            game.generator,
            GameView::grid_cells(game.field_width, game.field_height),
        ),
{
    lemma_fresh_inv(game.field_width, game.field_height, game.config, game.generator);
}

/// Resetting a game that was just built changes nothing but the blocks
/// and the generator.
pub proof fn lemma_reset_of_fresh_game(field_width: int, field_height: int, config: ConfigView, seed: int)
    requires
        0 <= field_width <= u16::MAX,
        0 <= field_height <= u16::MAX,
        config.inv(),
        0 <= seed <= u64::MAX,
    ensures
        ({
            let built = GameView::fresh(field_width, field_height, config, seed);
            let again = built.restarted();
            &&& again.bar == built.bar
            &&& again.ball == built.ball
            &&& again.field_width == built.field_width
            &&& again.field_height == built.field_height
            &&& again.config == built.config
            &&& again.status == built.status
        }),
{
}

/// Pausing and resuming brings back the very same game: a pause freezes,
/// it does not reset. A pause alone changes nothing but the status.
pub proof fn lemma_pause_round_trip(game: GameView)
    ensures
        game.pause_toggled().pause_toggled() == game,
        game.pause_toggled().bar == game.bar,
        game.pause_toggled().ball == game.ball,
        game.pause_toggled().blocks == game.blocks,
        game.status == Status::Running ==> game.pause_toggled().status == Status::Paused,
        game.status == Status::Paused ==> game.pause_toggled().status == Status::Running,
{
}

/// A ball about to leave the field at the bottom ends the game with the
/// tick, and nothing else changes.
pub proof fn lemma_fall_ends_game(game: GameView)
    requires
        game.inv(),
        game.status == Status::Running,
        game.ball.falls(game.field_height),
    ensures
        game.ticked() == (GameView { status: Status::GameOver, ..game }),
{
    let over = GameView { status: Status::GameOver, ..game };
    lemma_first_step_then_rest(game, game.ball.power as nat);
    lemma_idle_tick_changes_nothing(over, (game.ball.power - 1) as nat);
}

/// Taking `count` unit steps is taking one and then the others.
pub proof fn lemma_first_step_then_rest(game: GameView, count: nat)
    requires
        count >= 1,
    ensures
        game.stepped_times(count) == game.stepped().stepped_times((count - 1) as nat),
    decreases count,
{
    if count > 1 {
        lemma_first_step_then_rest(game, (count - 1) as nat);
    } else {
        assert(game.stepped_times(1) == game.stepped_times(0).stepped());
    }
}

/// With a power of one a tick of a running game is a single unit step.
pub proof fn lemma_tick_with_unit_power(game: GameView)
    requires
        game.status == Status::Running,
        game.ball.power == 1,
    ensures
        game.ticked() == game.stepped(),
{
    lemma_first_step_then_rest(game, 1);
}

/// A finished game ignores ticks, bar moves and the pause key.
pub proof fn lemma_finished_game_is_frozen(game: GameView)
    requires
        game.status == Status::GameOver || game.status == Status::Cleared,
    ensures
        game.ticked() == game,
        game.bar_moved_left() == game,
        game.bar_moved_right() == game,
        game.pause_toggled() == game,
{
}

/// With a density of zero no cell is filled, and with a density of one
/// every cell is.
pub proof fn lemma_layout_extremes(cols: int, strength: int, seed: int, cells: nat)
    requires
        0 <= seed <= u64::MAX,
    ensures
        layout(cols, 0, strength, seed, cells).len() == 0,
        layout(cols, 1000, strength, seed, cells).len() == cells,
    decreases cells,
{
    if cells > 0 {
        let index = (cells - 1) as nat;
        lemma_layout_extremes(cols, strength, seed, index);
        lemma_state_in_range(seed, cells);
        lemma_roll_in_range(state_after(seed, cells));
        assert(cell_filled(seed, 1000, index));
        assert(!cell_filled(seed, 0, index));
    }
}

} // verus!
