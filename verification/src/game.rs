//! The per-tick game rules: direction requests with reversal filtering,
//! movement, food consumption and relocation, scoring, and the wall and
//! self-collision game-over conditions.

use crate::snake::{moved_body, opposite, Direction, Snake};
use vstd::prelude::*;

verus! {

/// One keyboard event handed to a tick: an arrow key, the quit key, or
/// nothing (a poll timeout or an unrecognized key).
#[derive(Clone, Copy, PartialEq, Eq, Structural, Debug)]
pub enum KeyEvent {
    NoInput,
    ArrowUp,
    ArrowDown,
    ArrowLeft,
    ArrowRight,
    Quit,
}

/// The session's state machine: `Running` ticks on; the other two states
/// are terminal.
#[derive(Clone, Copy, PartialEq, Eq, Structural, Debug)]
pub enum GameStatus {
    Running,
    GameOverByCollision,
    QuitByUser,
}

/// The heading after a direction request: an arrow key turns the snake
/// unless the request is the exact reverse of the current heading, in which
/// case it is rejected; any other event leaves the heading unchanged.
pub open spec fn apply_turn(cur: Direction, key: KeyEvent) -> Direction {
    match key {
        KeyEvent::ArrowUp => if cur != Direction::Down { Direction::Up } else { cur },
        KeyEvent::ArrowDown => if cur != Direction::Up { Direction::Down } else { cur },
        KeyEvent::ArrowLeft => if cur != Direction::Right { Direction::Left } else { cur },
        KeyEvent::ArrowRight => if cur != Direction::Left { Direction::Right } else { cur },
        _ => cur,
    }
}

/// No single request can reverse the heading: the heading after a turn is
/// never the exact opposite of the prior one. An arrow request that is not
/// the reverse of the prior heading is honored.
pub proof fn lemma_no_reversal(cur: Direction, key: KeyEvent)
    ensures
        apply_turn(cur, key) != opposite(cur),
        key == KeyEvent::ArrowUp && cur != Direction::Down ==> apply_turn(cur, key)
            == Direction::Up,
        key == KeyEvent::ArrowDown && cur != Direction::Up ==> apply_turn(cur, key)
            == Direction::Down,
        key == KeyEvent::ArrowLeft && cur != Direction::Right ==> apply_turn(cur, key)
            == Direction::Left,
        key == KeyEvent::ArrowRight && cur != Direction::Left ==> apply_turn(cur, key)
            == Direction::Right,
{
}

/// Whether a head cell lies on or beyond the boundary band: row 0 and row
/// max_y - 1 (and the columns alike) are out of bounds.
pub open spec fn hits_wall(head: (i32, i32), max_y: i32, max_x: i32) -> bool {
    head.0 <= 0 || head.0 >= max_y - 1 || head.1 <= 0 || head.1 >= max_x - 1
}

/// Whether the head cell coincides with some other body segment.
pub open spec fn self_collision(body: Seq<(i32, i32)>) -> bool {
    exists|j: int| 1 <= j < body.len() && #[trigger] body[j] == body[0]
}

/// Where food reappears after being eaten at `head`: the deterministic rule
/// ((head.row + 3) mod max_y, (head.col + 5) mod max_x).
pub open spec fn relocated_food(head: (i32, i32), max_y: i32, max_x: i32) -> (i32, i32)
    recommends
        max_y > 0,
        max_x > 0,
{
    ((((head.0 + 3) % (max_y as int)) as i32), (((head.1 + 5) % (max_x as int)) as i32))
}

pub struct GameSession {
    pub snake: Snake,
    /// The food cell, always on the board.
    pub food: (i32, i32),
    pub score: u32,
    /// Pending growth: set when food was eaten this tick, consumed by the
    /// next movement step.
    pub grow: bool,
    pub max_y: i32,
    pub max_x: i32,
    pub status: GameStatus,
}

impl GameSession {
    pub open spec fn head(self) -> (i32, i32) {
        self.snake.body@[0]
    }

    /// A sound session: nonempty body; board dimensions positive and small
    /// enough that one movement step and the food formula cannot overflow;
    /// food on the board; and, while running, the head on the board too.
    pub open spec fn wf(self) -> bool {
        &&& self.snake.wf()
        &&& 0 < self.max_y && self.max_y + 3 <= i32::MAX
        &&& 0 < self.max_x && self.max_x + 5 <= i32::MAX
        &&& 0 <= self.food.0 < self.max_y
        &&& 0 <= self.food.1 < self.max_x
        &&& (self.status == GameStatus::Running ==> 0 <= self.head().0 < self.max_y && 0
            <= self.head().1 < self.max_x)
    }

    /// A fresh session on a max_y-by-max_x board: a one-segment snake at
    /// the board's center heading `Right`, food at the quarter point,
    /// score zero, no pending growth, running.
    pub fn new(max_y: i32, max_x: i32) -> (s: GameSession)
        requires
            0 < max_y,
            max_y + 3 <= i32::MAX,
            0 < max_x,
            max_x + 5 <= i32::MAX,
        ensures
            s.wf(),
            s.snake.body@ =~= seq![(((max_y / 2) as i32), ((max_x / 2) as i32))],
            s.snake.direction == Direction::Right,
            s.food.0 == max_y / 4 && s.food.1 == max_x / 4,
            s.score == 0,
            !s.grow,
            s.max_y == max_y && s.max_x == max_x,
            s.status == GameStatus::Running,
    {
        GameSession {
            snake: Snake::new(max_y / 2, max_x / 2),
            food: (max_y / 4, max_x / 4),
            score: 0,
            grow: false,
            max_y,
            max_x,
            status: GameStatus::Running,
        }
    }

    /// One tick of a running session, after the draw phase. A quit event
    /// ends the session untouched. Otherwise the direction request is
    /// applied (reversals rejected), the snake advances one cell consuming
    /// any pending growth, food consumption is evaluated against the new
    /// head (relocating the food, setting pending growth and crediting the
    /// score), and finally the wall and self-collision conditions decide
    /// whether the session keeps running. A tick that both eats and
    /// collides still credits the score.
    pub fn tick(&mut self, key: KeyEvent)
        requires
            old(self).wf(),
            old(self).status == GameStatus::Running,
            old(self).score < u32::MAX,
        ensures
            final(self).wf(),
            final(self).max_y == old(self).max_y,
            final(self).max_x == old(self).max_x,
            key == KeyEvent::Quit ==> {
                &&& final(self).status == GameStatus::QuitByUser
                &&& final(self).snake == old(self).snake
                &&& final(self).food == old(self).food
                &&& final(self).score == old(self).score
                &&& final(self).grow == old(self).grow
            },
            key != KeyEvent::Quit ==> {
                let d = apply_turn(old(self).snake.direction, key);
                let body2 = moved_body(old(self).snake.body@, d, old(self).grow);
                let ate = body2[0] == old(self).food;
                &&& final(self).snake.direction == d
                &&& final(self).snake.body@ =~= body2
                &&& final(self).score == old(self).score + (if ate { 1int } else { 0int })
                &&& final(self).grow == ate
                &&& final(self).food == (if ate {
                    relocated_food(body2[0], old(self).max_y, old(self).max_x)
                } else {
                    old(self).food
                })
                &&& final(self).status == (if hits_wall(body2[0], old(self).max_y, old(self).max_x)
                    || self_collision(body2) {
                    GameStatus::GameOverByCollision
                } else {
                    GameStatus::Running
                })
            },
    {
        match key {
            KeyEvent::Quit => {
                self.status = GameStatus::QuitByUser;
                return;
            },
            KeyEvent::ArrowUp => if self.snake.direction != Direction::Down {
                self.snake.change_direction(Direction::Up);
            },
            KeyEvent::ArrowDown => if self.snake.direction != Direction::Up {
                self.snake.change_direction(Direction::Down);
            },
            KeyEvent::ArrowLeft => if self.snake.direction != Direction::Right {
                self.snake.change_direction(Direction::Left);
            },
            KeyEvent::ArrowRight => if self.snake.direction != Direction::Left {
                self.snake.change_direction(Direction::Right);
            },
            KeyEvent::NoInput => {},
        }

        let g = self.grow;
        self.grow = false;
        self.snake.move_forward(g);

        let head_pos = self.snake.head_position();
        if head_pos.0 == self.food.0 && head_pos.1 == self.food.1 {
            self.food = ((head_pos.0 + 3) % self.max_y, (head_pos.1 + 5) % self.max_x);
            self.grow = true;
            self.score = self.score + 1;
        }

        let wall = head_pos.0 <= 0 || head_pos.0 >= self.max_y - 1 || head_pos.1 <= 0
            || head_pos.1 >= self.max_x - 1;

        let n = self.snake.body.len();
        let mut j: usize = 1;
        let mut self_hit = false;
        while j < n
            invariant
                n == self.snake.body@.len(),
                1 <= j <= n,
                self_hit == exists|k: int|
                    1 <= k < j && #[trigger] self.snake.body@[k] == self.snake.body@[0],
            decreases n - j,
        {
            let seg = self.snake.body[j];
            let head0 = self.snake.body[0];
            if seg.0 == head0.0 && seg.1 == head0.1 {
                self_hit = true;
            }
            j += 1;
        }

        if wall || self_hit {
            self.status = GameStatus::GameOverByCollision;
        }
    }
}

} // verus!
