use vstd::prelude::*;

use rand::Rng;

use crate::arith::{lemma_scaled_within, lemma_wide_product};

verus! {

/// The top-left corner of the grid cell at column `cx`, row `cy`, with
/// cells `cell_size` wide.
pub open spec fn grid_cell(cell_size: int, cx: int, cy: int) -> (int, int) {
    (cx * cell_size, cy * cell_size)
}

/// The thread-local random number generator of `rand`, carried opaque.
#[verifier::external_type_specification]
#[verifier::external_body]
pub struct ExThreadRng(rand::rngs::ThreadRng);

/// Relies on `rand::thread_rng`: hands out the thread's random number
/// generator (seeding it from the system on first use); nothing is promised
/// of what it will draw.
pub assume_specification[ rand::thread_rng ]() -> rand::rngs::ThreadRng;

/// Relies on `rand::Rng::gen_range` over `0..=max`: a number drawn from that
/// inclusive range, which is never empty.
#[verifier::external_body]
fn draw_up_to(rng: &mut rand::rngs::ThreadRng, max: usize) -> (r: usize)
    ensures
        r <= max,
{
    rng.gen_range(0..=max)
}

/// The corner of the cell at column `cx`, row `cy` as `[x, y]`.
pub fn cell_position(cell_size: i64, cx: usize, cy: usize) -> (r: [i64; 2])
    requires
        i64::MIN <= cx * cell_size <= i64::MAX,
        i64::MIN <= cy * cell_size <= i64::MAX,
    ensures
        (r[0] as int, r[1] as int) == grid_cell(cell_size as int, cx as int, cy as int),
{
    proof {
        lemma_wide_product(cx as int, cell_size as int);
        lemma_wide_product(cy as int, cell_size as int);
    }
    let x = (cx as i128) * (cell_size as i128);
    let y = (cy as i128) * (cell_size as i128);
    [x as i64, y as i64]
}

/// The corner of a cell chosen at random among columns `0..=max_x_cells`
/// and rows `0..=max_y_cells`, as `[x, y]`. Both upper ends can be drawn.
pub fn random_pos_in_grid(cell_size: i64, max_x_cells: usize, max_y_cells: usize) -> (r: [i64; 2])
    requires
        i64::MIN <= max_x_cells * cell_size <= i64::MAX,
        i64::MIN <= max_y_cells * cell_size <= i64::MAX,
    ensures
        exists|cx: int, cy: int|
            0 <= cx <= max_x_cells && 0 <= cy <= max_y_cells && (r[0] as int, r[1] as int)
                == grid_cell(cell_size as int, cx, cy),
{
    let mut rng = rand::thread_rng();
    let cx = draw_up_to(&mut rng, max_x_cells);
    let cy = draw_up_to(&mut rng, max_y_cells);
    proof {
        lemma_scaled_within(cx as int, max_x_cells as int, cell_size as int);
        lemma_scaled_within(cy as int, max_y_cells as int, cell_size as int);
    }
    let r = cell_position(cell_size, cx, cy);
    assert(0 <= cx <= max_x_cells && 0 <= cy <= max_y_cells && (r[0] as int, r[1] as int)
        == grid_cell(cell_size as int, cx as int, cy as int));
    r
}

} // verus!
