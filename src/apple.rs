use vstd::prelude::*;

verus! {

/// A number of snake blocks.
pub type SnakeBlockCount = usize;

/// Something the snake can collect, which makes it grow.
pub trait SnakeCollectibleGrower {
    /// How many blocks the snake grows by on collecting this; at least one.
    fn on_collect(&self) -> (r: SnakeBlockCount)
        ensures
            r >= 1,
    ;
}

/// The apple as the simulation sees it.
pub struct AppleView {
    /// The top-left corner of the cell that the apple occupies.
    pub position: (int, int),
    /// The edge length of the apple's picture.
    pub size: int,
    /// How many blocks the snake grows by on eating it.
    pub grow_count: nat,
}

/// The single apple of a game. It is moved, not made anew, when eaten.
pub struct Apple {
    position: [i64; 2],
    image_size: i64,
    snake_blocks_grow_count: SnakeBlockCount,
}

impl View for Apple {
    type V = AppleView;

    closed spec fn view(&self) -> AppleView {
        AppleView {
            position: (self.position[0] as int, self.position[1] as int),
            size: self.image_size as int,
            grow_count: self.snake_blocks_grow_count as nat,
        }
    }
}

impl SnakeCollectibleGrower for Apple {
    fn on_collect(&self) -> (r: SnakeBlockCount)
        ensures
            r == self@.grow_count,
    {
        proof {
            use_type_invariant(self);
        }
        self.snake_blocks_grow_count
    }
}

impl Apple {
    /// An apple yields at least one block.
    #[verifier::type_invariant]
    spec fn yields_blocks(&self) -> bool {
        self.snake_blocks_grow_count >= 1
    }

    /// An apple at `position` (`[x, y]`), drawn `size` wide, that makes the
    /// snake grow by `grow_count` blocks.
    pub fn new(position: [i64; 2], size: i64, grow_count: SnakeBlockCount) -> (r: Apple)
        requires
            grow_count >= 1,
        ensures
            r@ == (AppleView {
                position: (position[0] as int, position[1] as int),
                size: size as int,
                grow_count: grow_count as nat,
            }),
    {
        Apple { position, image_size: size, snake_blocks_grow_count: grow_count }
    }

    /// The common red apple, worth one block.
    pub fn new_standard_apple(position: [i64; 2], size: i64) -> (r: Apple)
        ensures
            r@ == (AppleView {
                position: (position[0] as int, position[1] as int),
                size: size as int,
                grow_count: 1,
            }),
    {
        Apple::new(position, size, 1)
    }

    /// The golden apple; it looks different and, for now, is worth one block
    /// like the standard one.
    pub fn new_super_apple(position: [i64; 2], size: i64) -> (r: Apple)
        ensures
            r@ == (AppleView {
                position: (position[0] as int, position[1] as int),
                size: size as int,
                grow_count: 1,
            }),
    {
        Apple::new(position, size, 1)
    }

    /// The apple's position as `[x, y]`.
    pub fn get_position(&self) -> (r: [i64; 2])
        ensures
            (r[0] as int, r[1] as int) == self@.position,
    {
        self.position
    }

    /// Puts the apple at `pos` (`[x, y]`); its size and yield stay.
    pub fn move_to(&mut self, pos: [i64; 2])
        ensures
            final(self)@ == (AppleView { position: (pos[0] as int, pos[1] as int), ..old(self)@ }),
    {
        proof {
            use_type_invariant(&*self);
        }
        self.position = pos;
    }
}

} // verus!
