mod direction;
mod fruit;
mod game;
mod geometry;
mod input;
mod snake;

pub use direction::Direction;
pub use fruit::Fruit;
pub use game::Block;
pub use game::BlockColor;
pub use game::Game;
pub use geometry::Point;
pub use input::Key;
pub use input::direction_request;
pub use snake::START_X;
pub use snake::START_Y;
pub use snake::Snake;
pub use snake::lemma_out_of_bounds_kills;
pub use snake::lemma_reversal_guard;
pub use snake::lemma_self_collision_kills;
pub use snake::lemma_tail_growth;
pub use snake::lemma_tail_within_length;
pub use snake::lemma_trimmed_cell_is_safe;
