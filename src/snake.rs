use vstd::prelude::*;

use crate::arith::{lemma_scaled_within, lemma_shifted_within, lemma_wide_product};
use crate::direction::SnakeBlockDirection;
use crate::text::{decimal, decimal_string};

verus! {

/// Whether both coordinates of `p` are representable as `i64`.
pub open spec fn fits_i64(p: (int, int)) -> bool {
    i64::MIN <= p.0 <= i64::MAX && i64::MIN <= p.1 <= i64::MAX
}

/// The position one block of edge `block_size` away from `p` in direction `d`.
/// The y axis grows downwards, so `Up` decreases y.
pub open spec fn step(p: (int, int), d: SnakeBlockDirection, block_size: int) -> (int, int) {
    match d {
        SnakeBlockDirection::Right => (p.0 + block_size, p.1),
        SnakeBlockDirection::Left => (p.0 - block_size, p.1),
        SnakeBlockDirection::Up => (p.0, p.1 - block_size),
        SnakeBlockDirection::Down => (p.0, p.1 + block_size),
    }
}

/// The body of a freshly made snake: `count` blocks in a horizontal run,
/// the one at index `i` at `(block_size * i, block_size)`.
pub open spec fn straight_body(count: nat, block_size: int) -> Seq<(int, int)> {
    Seq::new(count, |i: int| (block_size * i, block_size))
}

/// `count` blocks laid out behind `tail` along the x axis, each one
/// `block_size` further left than the next; the last lies right behind `tail`.
pub open spec fn tail_extension(tail: (int, int), count: nat, block_size: int) -> Seq<(int, int)> {
    Seq::new(count, |k: int| (tail.0 - (count - k) * block_size, tail.1))
}

/// One grid cell occupied by the snake. Only its position takes part in the
/// simulation; its size and inner padding are carried for drawing.
#[derive(Clone, Copy, Debug)]
pub struct SnakeBlock {
    x: i64,
    y: i64,
    size: i64,
    padding: i64,
}

impl SnakeBlock {
    /// The block's top-left corner.
    pub closed spec fn position(&self) -> (int, int) {
        (self.x as int, self.y as int)
    }

    /// The block's edge length.
    pub closed spec fn size(&self) -> int {
        self.size as int
    }

    /// How far the inner square sits inside the outer one.
    pub closed spec fn padding(&self) -> int {
        self.padding as int
    }

    /// A block with its top-left corner at `(x, y)`, edge `size`, and an
    /// inner square inset by `padding`.
    pub fn new(x: i64, y: i64, size: i64, padding: i64) -> (r: SnakeBlock)
        ensures
            r.position() == (x as int, y as int),
            r.size() == size,
            r.padding() == padding,
    {
        SnakeBlock { x, y, size, padding }
    }

    /// Moves the block by `(dx, dy)`.
    pub fn shift(&mut self, dx: i64, dy: i64)
        requires
            fits_i64((old(self).position().0 + dx, old(self).position().1 + dy)),
        ensures
            final(self).position() == (old(self).position().0 + dx, old(self).position().1 + dy),
            final(self).size() == old(self).size(),
            final(self).padding() == old(self).padding(),
    {
        self.x = self.x + dx;
        self.y = self.y + dy;
    }

    /// Puts the block's top-left corner at `(x, y)`.
    pub fn move_to(&mut self, x: i64, y: i64)
        ensures
            final(self).position() == (x as int, y as int),
            final(self).size() == old(self).size(),
            final(self).padding() == old(self).padding(),
    {
        self.x = x;
        self.y = y;
    }

    /// The block's edge length.
    pub fn get_size(&self) -> (r: i64)
        ensures
            r == self.size(),
    {
        self.size
    }

    /// How far the inner square sits inside the outer one.
    pub fn get_padding(&self) -> (r: i64)
        ensures
            r == self.padding(),
    {
        self.padding
    }

    /// The block's top-left corner as `[x, y]`.
    pub fn get_current_position(&self) -> (r: [i64; 2])
        ensures
            (r[0] as int, r[1] as int) == self.position(),
    {
        [self.x, self.y]
    }
}

/// The snake as the simulation sees it.
pub struct SnakeView {
    /// Block positions from the tail (index 0) to the head (last index).
    pub body: Seq<(int, int)>,
    /// The edge length of one block: the distance covered by one move.
    pub block_size: int,
    /// Where the head goes on the next move.
    pub direction: SnakeBlockDirection,
    /// A dead snake never moves again.
    pub dead: bool,
}

impl SnakeView {
    pub open spec fn head(self) -> (int, int) {
        self.body.last()
    }

    pub open spec fn tail(self) -> (int, int) {
        self.body[0]
    }

    /// Where the head goes on the next move.
    pub open spec fn next_head(self) -> (int, int) {
        step(self.head(), self.direction, self.block_size)
    }

    /// The state after one move: each block takes the place of its
    /// head-ward neighbour, the head steps once in the current direction,
    /// and the old tail position is left. A dead snake stays as it is.
    pub open spec fn advanced(self) -> SnakeView {
        if self.dead {
            self
        } else {
            SnakeView { body: self.body.drop_first().push(self.next_head()), ..self }
        }
    }

    /// Whether the move stays within the coordinates that the snake can hold.
    pub open spec fn can_advance(self) -> bool {
        self.dead || fits_i64(self.next_head())
    }

    /// The state after `count` blocks were added behind the tail.
    pub open spec fn grown(self, count: nat) -> SnakeView {
        SnakeView { body: tail_extension(self.tail(), count, self.block_size) + self.body, ..self }
    }

    /// Whether growing by `count` stays within the coordinates and the
    /// length that the snake can hold.
    pub open spec fn can_grow(self, count: nat) -> bool {
        &&& fits_i64((self.tail().0 - count * self.block_size, self.tail().1))
        &&& self.body.len() + count <= usize::MAX
    }

    /// The state after the direction was asked to change to `d`: a living
    /// snake takes a perpendicular direction, anything else is ignored.
    pub open spec fn redirected(self, d: SnakeBlockDirection) -> SnakeView {
        if self.dead {
            self
        } else {
            SnakeView { direction: self.direction.turned(d), ..self }
        }
    }

    /// Whether the head lies on some other block of the body.
    pub open spec fn head_on_body(self) -> bool {
        exists|i: int| 0 <= i < self.body.len() - 1 && self.body[i] == self.head()
    }

    /// Whether the head lies in the half-open rectangle
    /// `[min_x, max_x) x [min_y, max_y)`.
    pub open spec fn head_in_bounds(self, min_x: int, max_x: int, min_y: int, max_y: int) -> bool {
        &&& min_x <= self.head().0 < max_x
        &&& min_y <= self.head().1 < max_y
    }
}

/// A snake: blocks from tail to head, the direction of travel, and whether
/// it is still alive.
pub struct Snake {
    blocks: Vec<SnakeBlock>,
    single_block_size: i64,
    head_current_direction: SnakeBlockDirection,
    blocks_padding: i64,
    is_dead: bool,
}

impl View for Snake {
    type V = SnakeView;

    closed spec fn view(&self) -> SnakeView {
        SnakeView {
            body: self.blocks@.map_values(|b: SnakeBlock| b.position()),
            block_size: self.single_block_size as int,
            direction: self.head_current_direction,
            dead: self.is_dead,
        }
    }
}

impl Snake {
    /// A snake always has a head.
    pub open spec fn wf(&self) -> bool {
        self@.body.len() >= 1
    }

    /// A living snake of `blocks_count` blocks heading right, laid out in a
    /// horizontal run at `x = block_size * i`, `y = block_size`.
    pub fn new(blocks_count: usize, block_size: i64, blocks_padding: i64) -> (r: Snake)
        requires
            blocks_count >= 1,
            i64::MIN <= (blocks_count - 1) * block_size <= i64::MAX,
        ensures
            r.wf(),
            r@ == (SnakeView {
                body: straight_body(blocks_count as nat, block_size as int),
                block_size: block_size as int,
                direction: SnakeBlockDirection::Right,
                dead: false,
            }),
    {
        let mut snake_body: Vec<SnakeBlock> = Vec::new();
        let mut i: usize = 0;
        let mut x: i64 = 0;
        while i < blocks_count
            invariant
                i <= blocks_count,
                i64::MIN <= (blocks_count - 1) * block_size <= i64::MAX,
                i < blocks_count ==> x == block_size * i,
                snake_body@.len() == i,
                forall|j: int|
                    0 <= j < i ==> #[trigger] snake_body@[j].position() == (block_size * j, block_size as int),
            decreases blocks_count - i,
        {
            snake_body.push(SnakeBlock::new(x, block_size, block_size, blocks_padding));
            if i + 1 < blocks_count {
                proof {
                    lemma_scaled_within(i + 1, blocks_count - 1, block_size as int);
                    assert(block_size * (i + 1) == block_size * i + block_size) by (nonlinear_arith);
                }
                x = x + block_size;
            }
            i = i + 1;
        }
        assert(snake_body@.map_values(|b: SnakeBlock| b.position()) =~= straight_body(
            blocks_count as nat,
            block_size as int,
        ));
        Snake {
            blocks: snake_body,
            single_block_size: block_size,
            head_current_direction: SnakeBlockDirection::Right,
            blocks_padding,
            is_dead: false,
        }
    }

    /// The number of blocks.
    pub fn get_length(&self) -> (r: usize)
        ensures
            r == self@.body.len(),
    {
        self.blocks.len()
    }

    /// The number of blocks in decimal notation.
    pub fn get_length_as_str(&self) -> (r: String)
        ensures
            r@ == decimal(self@.body.len()),
    {
        decimal_string(self.get_length())
    }
}

impl Snake {
    /// The head block, the last one of the body.
    fn get_head(&self) -> (r: &SnakeBlock)
        requires
            self.wf(),
        ensures
            r.position() == self@.head(),
    {
        &self.blocks[self.blocks.len() - 1]
    }

    /// The head's position as `[x, y]`.
    pub fn get_head_position(&self) -> (r: [i64; 2])
        requires
            self.wf(),
        ensures
            (r[0] as int, r[1] as int) == self@.head(),
    {
        self.get_head().get_current_position()
    }

    /// Where the head goes on the next move, as `[x, y]`.
    pub fn next_head_position(&self) -> (r: [i64; 2])
        requires
            self.wf(),
            fits_i64(self@.next_head()),
        ensures
            (r[0] as int, r[1] as int) == self@.next_head(),
    {
        let head_pos = self.get_head_position();
        let size = self.single_block_size;
        match self.head_current_direction {
            SnakeBlockDirection::Right => [head_pos[0] + size, head_pos[1]],
            SnakeBlockDirection::Left => [head_pos[0] - size, head_pos[1]],
            SnakeBlockDirection::Up => [head_pos[0], head_pos[1] - size],
            SnakeBlockDirection::Down => [head_pos[0], head_pos[1] + size],
        }
    }

    /// Moves every block onto the place of its head-ward neighbour and the
    /// head one block further in the current direction.
    fn move_snake(&mut self)
        requires
            old(self).wf(),
            fits_i64(old(self)@.next_head()),
        ensures
            final(self)@ == (SnakeView {
                body: old(self)@.body.drop_first().push(old(self)@.next_head()),
                ..old(self)@
            }),
    {
        let next_block_position = self.next_head_position();
        let len = self.blocks.len();
        let ghost old_blocks = self.blocks@;
        let mut i: usize = 0;
        while i + 1 < len
            invariant
                self.blocks@.len() == len,
                len == old_blocks.len(),
                len >= 1,
                i + 1 <= len,
                self.single_block_size == old(self).single_block_size,
                self.head_current_direction == old(self).head_current_direction,
                self.is_dead == old(self).is_dead,
                old_blocks == old(self).blocks@,
                forall|j: int| 0 <= j < i ==> #[trigger] self.blocks@[j].position() == old_blocks[j + 1].position(),
                forall|j: int| i <= j < len ==> #[trigger] self.blocks@[j] == old_blocks[j],
            decreases len - i,
        {
            let ahead = self.blocks[i + 1].get_current_position();
            let mut block = self.blocks[i];
            block.move_to(ahead[0], ahead[1]);
            self.blocks.set(i, block);
            i = i + 1;
        }
        let mut head = self.blocks[len - 1];
        head.move_to(next_block_position[0], next_block_position[1]);
        self.blocks.set(len - 1, head);
        assert(self@.body =~= old(self)@.body.drop_first().push(old(self)@.next_head()));
    }

    /// One move of a living snake (see `SnakeView::advanced`); a dead snake
    /// stays where it is.
    pub fn move_in_current_direction(&mut self)
        requires
            old(self).wf(),
            old(self)@.can_advance(),
        ensures
            final(self).wf(),
            final(self)@ == old(self)@.advanced(),
    {
        if !self.is_dead {
            self.move_snake();
        }
    }
}

impl Snake {
    /// Adds `count` blocks behind the tail, one after another, each placed
    /// one block size left of the block that was the tail before it, whatever
    /// the direction of travel (see `SnakeView::grown`).
    pub fn grow(&mut self, count: usize)
        requires
            old(self).wf(),
            old(self)@.can_grow(count as nat),
        ensures
            final(self).wf(),
            final(self)@ == old(self)@.grown(count as nat),
    {
        let ghost tail = old(self)@.tail();
        let ghost old_body = old(self)@.body;
        let size = self.single_block_size;
        let mut k: usize = 0;
        while k < count
            invariant
                k <= count,
                self.single_block_size == size,
                size == old(self).single_block_size,
                self.head_current_direction == old(self).head_current_direction,
                self.is_dead == old(self).is_dead,
                old_body == old(self)@.body,
                old_body.len() >= 1,
                tail == old_body[0],
                i64::MIN <= tail.0 <= i64::MAX,
                old(self)@.can_grow(count as nat),
                self@.body == tail_extension(tail, k as nat, size as int) + old_body,
                self.blocks@.len() == k + old_body.len(),
            decreases count - k,
        {
            let front = self.blocks[0].get_current_position();
            let ghost before = self@.body;
            proof {
                assert(before[0] == self.blocks@[0].position());
                if k > 0 {
                    assert(before[0] == tail_extension(tail, k as nat, size as int)[0]);
                } else {
                    assert(before[0] == old_body[0]);
                    assert((k as int) * (size as int) == 0) by (nonlinear_arith)
                        requires k == 0;
                }
                assert(front[0] == tail.0 - k * size);
                lemma_shifted_within(tail.0, size as int, k + 1, count as int);
                assert(front[0] - size == tail.0 - (k + 1) * size) by (nonlinear_arith)
                    requires front[0] == tail.0 - k * size;
            }
            let block = SnakeBlock::new(front[0] - size, front[1], size, self.blocks_padding);
            self.blocks.insert(0, block);
            k = k + 1;
            proof {
                let ext = tail_extension(tail, k as nat, size as int);
                let prev = tail_extension(tail, (k - 1) as nat, size as int);
                assert(self@.body =~= seq![block.position()] + before);
                assert forall|j: int| 0 <= j < prev.len() implies ext[j + 1] == prev[j] by {
                    assert((k - (j + 1)) * size == (k - 1 - j) * size);
                }
                assert(ext =~= seq![block.position()] + prev);
            }
            assert(self@.body =~= tail_extension(tail, k as nat, size as int) + old_body);
        }
    }

    /// Marks the snake dead, for good.
    pub fn make_dead(&mut self)
        requires
            old(self).wf(),
        ensures
            final(self).wf(),
            final(self)@ == (SnakeView { dead: true, ..old(self)@ }),
    {
        self.is_dead = true;
    }

    /// Whether the snake has died.
    pub fn is_dead(&self) -> (r: bool)
        ensures
            r == self@.dead,
    {
        self.is_dead
    }
}

impl Snake {
    /// Asks the snake to head towards `d`. A living snake takes `d` only when
    /// it is perpendicular to the current direction; a request to go on or to
    /// turn back is ignored, as is any request to a dead snake.
    pub fn set_direction(&mut self, d: SnakeBlockDirection)
        requires
            old(self).wf(),
        ensures
            final(self).wf(),
            final(self)@ == old(self)@.redirected(d),
    {
        if !self.is_dead && d.is_perpendicular_to(&self.head_current_direction) {
            self.head_current_direction = d;
        }
    }

    /// Asks the snake to head right (see `set_direction`).
    pub fn change_dir_to_right(&mut self)
        requires
            old(self).wf(),
        ensures
            final(self).wf(),
            final(self)@ == old(self)@.redirected(SnakeBlockDirection::Right),
    {
        self.set_direction(SnakeBlockDirection::Right);
    }

    /// Asks the snake to head left (see `set_direction`).
    pub fn change_dir_to_left(&mut self)
        requires
            old(self).wf(),
        ensures
            final(self).wf(),
            final(self)@ == old(self)@.redirected(SnakeBlockDirection::Left),
    {
        self.set_direction(SnakeBlockDirection::Left);
    }

    /// Asks the snake to head up (see `set_direction`).
    pub fn change_dir_to_up(&mut self)
        requires
            old(self).wf(),
        ensures
            final(self).wf(),
            final(self)@ == old(self)@.redirected(SnakeBlockDirection::Up),
    {
        self.set_direction(SnakeBlockDirection::Up);
    }

    /// Asks the snake to head down (see `set_direction`).
    pub fn change_dir_to_down(&mut self)
        requires
            old(self).wf(),
        ensures
            final(self).wf(),
            final(self)@ == old(self)@.redirected(SnakeBlockDirection::Down),
    {
        self.set_direction(SnakeBlockDirection::Down);
    }

    /// The direction of travel.
    pub fn get_direction(&self) -> (r: SnakeBlockDirection)
        ensures
            r == self@.direction,
    {
        self.head_current_direction
    }

    /// Whether the head is exactly at `position` (`[x, y]`).
    pub fn is_head_at_position(&self, position: &[i64; 2]) -> (r: bool)
        requires
            self.wf(),
        ensures
            r == (self@.head() == (position[0] as int, position[1] as int)),
    {
        let head_pos = self.get_head_position();
        head_pos[0] == position[0] && head_pos[1] == position[1]
    }

    /// Whether the head lies on another block of the body.
    pub fn is_head_at_any_body_block(&self) -> (r: bool)
        requires
            self.wf(),
        ensures
            r == self@.head_on_body(),
    {
        let head_pos = self.get_head_position();
        let len = self.blocks.len();
        let mut i: usize = len - 1;
        while i > 0
            invariant
                i < len,
                len == self@.body.len(),
                (head_pos[0] as int, head_pos[1] as int) == self@.head(),
                forall|j: int| i <= j < len - 1 ==> self@.body[j] != self@.head(),
            decreases i,
        {
            i = i - 1;
            let pos = self.blocks[i].get_current_position();
            if pos[0] == head_pos[0] && pos[1] == head_pos[1] {
                assert(self@.body[i as int] == self@.head());
                return true;
            }
        }
        false
    }

    /// Whether the head lies in the half-open rectangle given as
    /// `[min_x, max_x, min_y, max_y]`.
    pub fn is_head_in_bounds(&self, bounds: &[i64; 4]) -> (r: bool)
        requires
            self.wf(),
        ensures
            r == self@.head_in_bounds(
                bounds[0] as int,
                bounds[1] as int,
                bounds[2] as int,
                bounds[3] as int,
            ),
    {
        let head_pos = self.get_head_position();
        head_pos[0] >= bounds[0] && head_pos[0] < bounds[1] && head_pos[1] >= bounds[2]
            && head_pos[1] < bounds[3]
    }

    /// Whether the next move keeps the head within `i64` coordinates.
    pub fn can_advance(&self) -> (r: bool)
        requires
            self.wf(),
        ensures
            r == self@.can_advance(),
    {
        if self.is_dead {
            return true;
        }
        let head_pos = self.get_head_position();
        let x = head_pos[0] as i128;
        let y = head_pos[1] as i128;
        let size = self.single_block_size as i128;
        let (nx, ny) = match self.head_current_direction {
            SnakeBlockDirection::Right => (x + size, y),
            SnakeBlockDirection::Left => (x - size, y),
            SnakeBlockDirection::Up => (x, y - size),
            SnakeBlockDirection::Down => (x, y + size),
        };
        i64::MIN as i128 <= nx && nx <= i64::MAX as i128 && i64::MIN as i128 <= ny && ny
            <= i64::MAX as i128
    }

    /// Whether growing by `count` keeps the new blocks within `i64`
    /// coordinates and the length within `usize`.
    pub fn can_grow(&self, count: usize) -> (r: bool)
        requires
            self.wf(),
        ensures
            r == self@.can_grow(count as nat),
    {
        let tail = self.blocks[0].get_current_position();
        extension_fits(tail, count, self.single_block_size, self.blocks.len())
    }

    /// The edge length of one block: the distance covered by one move.
    pub fn get_block_size(&self) -> (r: i64)
        ensures
            r == self@.block_size,
    {
        self.single_block_size
    }

    /// The position of the block at `index` (0 is the tail) as `[x, y]`.
    pub fn block_position(&self, index: usize) -> (r: [i64; 2])
        requires
            index < self@.body.len(),
        ensures
            (r[0] as int, r[1] as int) == self@.body[index as int],
    {
        self.blocks[index].get_current_position()
    }

    /// The blocks, from the tail to the head.
    pub fn get_blocks(&self) -> (r: &Vec<SnakeBlock>)
        ensures
            r@.map_values(|b: SnakeBlock| b.position()) == self@.body,
    {
        &self.blocks
    }

    /// The block positions as `[x, y]`, from the tail to the head.
    pub fn segment_positions(&self) -> (r: Vec<[i64; 2]>)
        ensures
            r@.len() == self@.body.len(),
            forall|i: int| 0 <= i < r@.len() ==> (#[trigger] r@[i][0] as int, r@[i][1] as int) == self@.body[i],
    {
        let mut r: Vec<[i64; 2]> = Vec::new();
        let mut i: usize = 0;
        while i < self.blocks.len()
            invariant
                i <= self@.body.len(),
                r@.len() == i,
                forall|j: int| 0 <= j < i ==> (#[trigger] r@[j][0] as int, r@[j][1] as int) == self@.body[j],
            decreases self@.body.len() - i,
        {
            r.push(self.blocks[i].get_current_position());
            i = i + 1;
        }
        r
    }
}

/// Whether `count` blocks laid out behind a tail at `tail` (`[x, y]`), one
/// `block_size` apart, stay within `i64` coordinates, and a body of `len`
/// blocks grown by them within `usize`.
pub fn extension_fits(tail: [i64; 2], count: usize, block_size: i64, len: usize) -> (r: bool)
    ensures
        r == (fits_i64((tail[0] - count * block_size, tail[1] as int)) && len + count
            <= usize::MAX),
{
    if count > usize::MAX - len {
        return false;
    }
    proof {
        lemma_wide_product(count as int, block_size as int);
    }
    let x = tail[0] as i128 - (count as i128) * (block_size as i128);
    i64::MIN as i128 <= x && x <= i64::MAX as i128
}

/// Asking for a new direction never turns the snake back on itself: the
/// direction held afterwards is never the opposite of the one held before.
pub proof fn lemma_redirect_never_reverses(s: SnakeView, d: SnakeBlockDirection)
    ensures
        s.redirected(d).direction != s.direction.opposite(),
{
    crate::direction::lemma_turn_never_reverses(s.direction, d);
}

/// A move keeps the number of blocks.
pub proof fn lemma_advance_keeps_length(s: SnakeView)
    requires
        s.body.len() >= 1,
    ensures
        s.advanced().body.len() == s.body.len(),
{
}

/// Growing by `n` adds exactly `n` blocks, all behind the tail: every block
/// that was there keeps its position, so the head does too.
pub proof fn lemma_grow_keeps_blocks(s: SnakeView, n: nat)
    requires
        s.body.len() >= 1,
    ensures
        s.grown(n).body.len() == s.body.len() + n,
        forall|i: int| 0 <= i < s.body.len() ==> #[trigger] s.grown(n).body[i + n] == s.body[i],
        s.grown(n).head() == s.head(),
{
}

/// Follow the leader: after a move of a living snake, each block but the
/// head stands where its head-ward neighbour stood before, and the head is
/// one block size further in the direction of travel.
pub proof fn lemma_follow_the_leader(s: SnakeView)
    requires
        s.body.len() >= 1,
        !s.dead,
    ensures
        forall|i: int| 0 <= i < s.body.len() - 1 ==> #[trigger] s.advanced().body[i] == s.body[i + 1],
        s.advanced().head() == step(s.head(), s.direction, s.block_size),
{
}

/// A freshly made snake, of any length, does not have its head on its body,
/// as long as its blocks have a size.
pub proof fn lemma_fresh_snake_not_colliding(count: nat, block_size: int)
    requires
        count >= 1,
        block_size != 0,
    ensures
        !(SnakeView {
            body: straight_body(count, block_size),
            block_size,
            direction: SnakeBlockDirection::Right,
            dead: false,
        }).head_on_body(),
{
    let s = SnakeView {
        body: straight_body(count, block_size),
        block_size,
        direction: SnakeBlockDirection::Right,
        dead: false,
    };
    assert forall|i: int| 0 <= i < s.body.len() - 1 implies s.body[i] != s.head() by {
        let last = count - 1;
        if block_size * i == block_size * last {
            assert(i == last) by (nonlinear_arith)
                requires block_size * i == block_size * last, block_size != 0;
        }
    }
}

/// A head that stands on a block other than itself is a collision.
pub proof fn lemma_head_on_block_collides(s: SnakeView, i: int)
    requires
        0 <= i < s.body.len() - 1,
        s.body[i] == s.head(),
    ensures
        s.head_on_body(),
{
}

} // verus!
