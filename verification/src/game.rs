use vstd::prelude::*;

use crate::fruit::Fruit;
use crate::geometry::Point;
use crate::input::Key;
use crate::snake::Snake;

verus! {

/// The color of one drawn square: red for the fruit, green for the snake's
/// head, dark green for each tail cell.
#[derive(Clone, Copy, PartialEq, Eq, Structural, Debug)]
pub enum BlockColor {
    Red,
    Green,
    DarkGreen,
}

/// One square to draw: a grid cell and its color. The host draws each as an
/// axis-aligned square of side `scale` at the cell's pixel position.
#[derive(Clone, Copy, PartialEq, Eq, Structural, Debug)]
pub struct Block {
    pub position: Point,
    pub color: BlockColor,
}

/// The whole game: one snake, one fruit, the cell size in pixels, and the
/// board's pixel dimensions. The game is `Playing` while the snake is
/// alive and `GameOver` once it is not.
pub struct Game {
    pub snake: Snake,
    pub scale: i32,
    pub size: [u32; 2],
    pub fruit: Fruit,
}

impl Game {
    /// Well-formedness: the cell size is positive and no larger than either
    /// board dimension, one step past the board still fits in an `i32`, and
    /// a live snake's head sits at nonnegative coordinates a step of which
    /// cannot overflow.
    pub open spec fn wf(self) -> bool {
        &&& 0 < self.scale
        &&& self.scale as int <= self.size[0] as int
        &&& self.scale as int <= self.size[1] as int
        &&& self.size[0] as int + self.scale as int <= i32::MAX as int
        &&& self.size[1] as int + self.scale as int <= i32::MAX as int
        &&& (self.snake.alive ==> 0 <= self.snake.position.x && self.snake.position.x as int
            + self.scale as int <= i32::MAX as int && 0 <= self.snake.position.y
            && self.snake.position.y as int + self.scale as int <= i32::MAX as int)
    }

    /// Whether this tick's step lands the snake's head on the fruit's cell.
    pub open spec fn spec_eats_fruit(self) -> bool {
        self.snake.alive && self.snake.spec_position_after_update(self.scale as int)
            == self.fruit.position
    }

    /// A fresh game on the given board: a new snake and a random fruit.
    pub fn new(scale: i32, size: [u32; 2]) -> (g: Game)
        requires
            0 < scale,
            scale as int <= size[0] as int,
            scale as int <= size[1] as int,
            size[0] as int + scale as int <= i32::MAX as int,
            size[1] as int + scale as int <= i32::MAX as int,
        ensures
            g.wf(),
            g.scale == scale,
            g.size == size,
            g.snake.spec_is_initial(),
            g.fruit.spec_in_range(scale as int, size),
    {
        Game { snake: Snake::new(), scale, size, fruit: Fruit::random(scale, size) }
    }

    /// One fixed-rate tick while playing: the snake advances one step; if
    /// its head lands on the fruit's cell, the fruit respawns at a random
    /// grid cell and the snake is owed exactly two more segments of growth.
    /// Once the game is over (snake dead), a tick changes nothing.
    pub fn update(&mut self)
        requires
            old(self).wf(),
            old(self).snake.length_to_grow > 0 ==> old(self).snake.length < u32::MAX,
            old(self).snake.length_to_grow < u32::MAX,
        ensures
            final(self).wf(),
            final(self).scale == old(self).scale,
            final(self).size == old(self).size,
            !old(self).snake.alive ==> *final(self) == *old(self),
            old(self).snake.alive ==> {
                let s0 = old(self).snake;
                let sc = old(self).scale as int;
                &&& final(self).snake.position == s0.spec_position_after_update(sc)
                &&& final(self).snake.tail@ == s0.spec_tail_after_update()
                &&& final(self).snake.length == s0.spec_length_after_update()
                &&& final(self).snake.direction == s0.direction
                &&& final(self).snake.alive == s0.spec_alive_after_update(sc, old(self).size)
            },
            old(self).snake.alive && !old(self).spec_eats_fruit() ==> {
                &&& final(self).snake.length_to_grow == old(
                    self,
                ).snake.spec_length_to_grow_after_update()
                &&& final(self).fruit == old(self).fruit
            },
            old(self).snake.alive && old(self).spec_eats_fruit() ==> {
                &&& final(self).snake.length_to_grow == old(
                    self,
                ).snake.spec_length_to_grow_after_update() + 2
                &&& final(self).fruit.spec_in_range(old(self).scale as int, old(self).size)
            },
    {
        if self.snake.alive {
            let scale = self.scale;
            let size = self.size;
            self.snake.update(scale, size);
            if self.snake.position == self.fruit.position {
                self.fruit = Fruit::random(scale, size);
                self.snake.length_to_grow = self.snake.length_to_grow + 2;
            }
        }
    }

    /// The restart prompt's answer: `Y` means play again, `N` means quit,
    /// anything else means no decision yet.
    pub fn continue_y_n(&self, k: Key) -> (r: Option<bool>)
        ensures
            r == (if k == Key::Y {
                Some(true)
            } else if k == Key::N {
                Some(false)
            } else {
                None::<bool>
            }),
    {
        match k {
            Key::Y => Some(true),
            Key::N => Some(false),
            _ => None,
        }
    }

    /// Route one key press. While playing, directional keys steer the snake.
    /// Once the game is over, `Y` restarts it with a fresh snake and a new
    /// random fruit, `N` asks the host to close the window (the returned
    /// flag), and any other key is ignored.
    pub fn button_pressed(&mut self, k: Key) -> (close: bool)
        requires
            old(self).wf(),
        ensures
            final(self).wf(),
            final(self).scale == old(self).scale,
            final(self).size == old(self).size,
            old(self).snake.alive ==> {
                &&& final(self).snake.direction == old(self).snake.spec_direction_after(k)
                &&& final(self).snake.position == old(self).snake.position
                &&& final(self).snake.length == old(self).snake.length
                &&& final(self).snake.length_to_grow == old(self).snake.length_to_grow
                &&& final(self).snake.tail@ == old(self).snake.tail@
                &&& final(self).snake.alive == old(self).snake.alive
                &&& final(self).fruit == old(self).fruit
                &&& !close
            },
            !old(self).snake.alive && k == Key::Y ==> {
                &&& final(self).snake.spec_is_initial()
                &&& final(self).fruit.spec_in_range(old(self).scale as int, old(self).size)
                &&& !close
            },
            !old(self).snake.alive && k == Key::N ==> *final(self) == *old(self) && close,
            !old(self).snake.alive && k != Key::Y && k != Key::N ==> *final(self) == *old(self)
                && !close,
    {
        if self.snake.alive {
            self.snake.change_direction(k);
            false
        } else {
            match self.continue_y_n(k) {
                Some(c) => {
                    if c {
                        self.snake = Snake::new();
                        self.fruit = Fruit::random(self.scale, self.size);
                        false
                    } else {
                        true
                    }
                },
                None => false,
            }
        }
    }

    /// What one frame draws, in order: nothing once the game is over;
    /// while playing, the fruit in red, then the snake's head in green,
    /// then each tail cell in dark green.
    pub open spec fn spec_render_plan(self) -> Seq<Block> {
        if self.snake.alive {
            seq![
                Block { position: self.fruit.position, color: BlockColor::Red },
                Block { position: self.snake.position, color: BlockColor::Green },
            ] + self.snake.tail@.map_values(
                |p: Point| Block { position: p, color: BlockColor::DarkGreen },
            )
        } else {
            Seq::<Block>::empty()
        }
    }

    /// The squares one frame draws, front to back.
    pub fn render_plan(&self) -> (v: Vec<Block>)
        ensures
            v@ == self.spec_render_plan(),
    {
        let mut v: Vec<Block> = Vec::new();
        if self.snake.alive {
            v.push(Block { position: self.fruit.position, color: BlockColor::Red });
            v.push(Block { position: self.snake.position, color: BlockColor::Green });
            let ghost head = v@;
            let mut i: usize = 0;
            while i < self.snake.tail.len()
                invariant
                    0 <= i <= self.snake.tail@.len(),
                    v@ == head + self.snake.tail@.take(i as int).map_values(
                        |p: Point| Block { position: p, color: BlockColor::DarkGreen },
                    ),
                decreases self.snake.tail@.len() - i,
            {
                v.push(Block { position: self.snake.tail[i], color: BlockColor::DarkGreen });
                proof {
                    assert(self.snake.tail@.take(i + 1).map_values(
                        |p: Point| Block { position: p, color: BlockColor::DarkGreen },
                    ) =~= self.snake.tail@.take(i as int).map_values(
                        |p: Point| Block { position: p, color: BlockColor::DarkGreen },
                    ).push(Block { position: self.snake.tail@[i as int], color: BlockColor::DarkGreen }));
                }
                i = i + 1;
            }
            proof {
                assert(self.snake.tail@.take(self.snake.tail@.len() as int) =~= self.snake.tail@);
                assert(v@ =~= self.spec_render_plan());
            }
        }
        v
    }
}

} // verus!
