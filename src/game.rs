use vstd::prelude::*;

use crate::apple::{Apple, AppleView, SnakeCollectibleGrower};
use crate::grid::{grid_cell, random_pos_in_grid};
use crate::snake::{extension_fits, Snake, SnakeView};

verus! {

/// What happened during one simulation step.
#[derive(Clone, Copy, Debug, PartialEq, Eq, Structural)]
pub struct TickOutcome {
    /// The head reached the apple: the snake grew and the apple moved.
    pub ate_apple: bool,
    /// The head hit the body or left the arena: the snake is dead.
    pub died: bool,
}

/// The snake after a step: moved, then grown when its head reached the apple.
pub open spec fn fed(s: SnakeView, apple: AppleView) -> SnakeView {
    let moved = s.advanced();
    if moved.head() == apple.position {
        moved.grown(apple.grow_count)
    } else {
        moved
    }
}

/// Whether a step stays within the coordinates and length the snake can hold.
pub open spec fn step_fits(s: SnakeView, apple: AppleView) -> bool {
    &&& s.can_advance()
    &&& s.advanced().head() == apple.position ==> s.advanced().can_grow(apple.grow_count)
}

/// Whether the snake `s` has to die: its head is on its body or outside the
/// half-open arena `[min_x, max_x, min_y, max_y]`.
pub open spec fn must_die(s: SnakeView, arena: Seq<i64>) -> bool {
    s.head_on_body() || !s.head_in_bounds(
        arena[0] as int,
        arena[1] as int,
        arena[2] as int,
        arena[3] as int,
    )
}

/// One simulation step, run on each pulse of the scheduler. The snake moves
/// (a dead one stays); if its head then is on the apple it grows by the
/// apple's yield and the apple goes to a random cell of the grid with
/// columns `0..=max_x_cells` and rows `0..=max_y_cells`; if its head then
/// is on its body or outside `arena_bounds` (`[min_x, max_x, min_y, max_y]`,
/// half open) it dies.
///
/// Returns `None`, and changes nothing, when the step would take the snake
/// beyond the `i64` coordinates or the `usize` length it can hold.
pub fn handle_game_tick(
    snake: &mut Snake,
    apple: &mut Apple,
    arena_bounds: &[i64; 4],
    cell_size: i64,
    max_x_cells: usize,
    max_y_cells: usize,
) -> (r: Option<TickOutcome>)
    requires
        old(snake).wf(),
        i64::MIN <= max_x_cells * cell_size <= i64::MAX,
        i64::MIN <= max_y_cells * cell_size <= i64::MAX,
    ensures
        final(snake).wf(),
        r is None <==> !step_fits(old(snake)@, old(apple)@),
        r is None ==> final(snake)@ == old(snake)@ && final(apple)@ == old(apple)@,
        r matches Some(o) ==> {
            let fed = fed(old(snake)@, old(apple)@);
            &&& o.ate_apple == (old(snake)@.advanced().head() == old(apple)@.position)
            &&& o.died == must_die(fed, arena_bounds@)
            &&& final(snake)@ == (if o.died { SnakeView { dead: true, ..fed } } else { fed })
            &&& final(apple)@.size == old(apple)@.size
            &&& final(apple)@.grow_count == old(apple)@.grow_count
            &&& !o.ate_apple ==> final(apple)@ == old(apple)@
            &&& o.ate_apple ==> exists|cx: int, cy: int|
                0 <= cx <= max_x_cells && 0 <= cy <= max_y_cells && final(apple)@.position
                    == grid_cell(cell_size as int, cx, cy)
        },
{
    if !snake.can_advance() {
        return None;
    }
    let apple_pos = apple.get_position();
    let grow_count = apple.on_collect();
    let moved_head = if snake.is_dead() {
        snake.get_head_position()
    } else {
        snake.next_head_position()
    };
    if moved_head[0] == apple_pos[0] && moved_head[1] == apple_pos[1] {
        let moved_tail = if snake.is_dead() {
            snake.block_position(0)
        } else if snake.get_length() >= 2 {
            snake.block_position(1)
        } else {
            moved_head
        };
        if !extension_fits(moved_tail, grow_count, snake.get_block_size(), snake.get_length()) {
            return None;
        }
    }
    snake.move_in_current_direction();
    let ate_apple = snake.is_head_at_position(&apple_pos);
    if ate_apple {
        snake.grow(grow_count);
        let new_pos = random_pos_in_grid(cell_size, max_x_cells, max_y_cells);
        apple.move_to(new_pos);
    }
    let died = snake.is_head_at_any_body_block() || !snake.is_head_in_bounds(arena_bounds);
    if died {
        snake.make_dead();
    }
    Some(TickOutcome { ate_apple, died })
}

} // verus!
