use vstd::prelude::*;

use std::collections::VecDeque;

use crate::model::{
    cell, free_upto, in_bounds, lemma_free_cells, moved, on_board, opposite, start, GameView,
};

verus! {

/// A cell of the board, as (column, row).
pub type Position = (usize, usize);

/// The four directions the snake can head in.
#[derive(Debug, Clone, Copy, PartialEq, Eq, Structural)]
pub enum Direction {
    Top,
    Right,
    Bottom,
    Left,
}

/// Where the food's next cell comes from: a source of integers in a range.
pub trait RandomSource {
    /// An integer meant to lie in `low..high`, drawn uniformly.
    fn random_range(&mut self, low: usize, high: usize) -> usize
        requires
            low < high,
    ;
}

/// The whole state of one game.
#[derive(Debug)]
pub struct SnakeGame {
    pub width: usize,
    pub height: usize,
    /// The body, head at the front and tail at the back.
    pub snake: VecDeque<Position>,
    pub direction: Direction,
    next_direction: Direction,
    pub food: Position,
    /// Set once the snake leaves the board, runs into itself, or fills the board.
    pub finished: bool,
}

impl View for SnakeGame {
    type V = GameView;

    closed spec fn view(&self) -> GameView {
        GameView {
            width: self.width,
            height: self.height,
            snake: self.snake@,
            direction: self.direction,
            next_direction: self.next_direction,
            food: self.food,
            finished: self.finished,
        }
    }
}

impl SnakeGame {
    /// A game on a `width` by `height` board: a one-cell snake towards the right
    /// heading left, the food towards the left, both on the middle row.
    pub fn new(width: usize, height: usize) -> (r: Self)
        requires
            width >= 1,
            height >= 1,
        ensures
            r@ == start(width, height),
            r@.wf(),
            r@.snake.len() == 1,
            width != 1 && width != 5 ==> r@.food != r@.snake[0],
    {
        let row = height / 2;
        let x = if width >= 3 { width - 3 } else { 0 };
        let fx = if width - 1 < 2 { width - 1 } else { 2 };
        let mut snake: VecDeque<Position> = VecDeque::new();
        snake.push_back((x, row));
        SnakeGame {
            width,
            height,
            snake,
            direction: Direction::Left,
            next_direction: Direction::Left,
            food: (fx, row),
            finished: false,
        }
    }

    /// Asks the snake to turn on the next tick. Ignored once the game is finished,
    /// and where `direction` is the current direction or its opposite; otherwise
    /// it replaces any earlier request.
    pub fn change_direction(&mut self, direction: Direction)
        ensures
            final(self)@ == old(self)@.request(direction),
            old(self)@.wf() ==> final(self)@.wf(),
            old(self)@.finished ==> final(self)@ == old(self)@,
            !old(self)@.finished && direction != old(self)@.direction && direction != opposite(
                old(self)@.direction,
            ) ==> final(self)@.next_direction == direction,
    {
        if self.finished {
            return;
        }
        match (self.direction, direction) {
            (Direction::Top, Direction::Top)
            | (Direction::Top, Direction::Bottom)
            | (Direction::Right, Direction::Right)
            | (Direction::Right, Direction::Left)
            | (Direction::Bottom, Direction::Top)
            | (Direction::Bottom, Direction::Bottom)
            | (Direction::Left, Direction::Right)
            | (Direction::Left, Direction::Left) => {},
            (_, d) => {
                self.next_direction = d;
            },
        }
    }

    /// Whether `pos` lies on the board.
    pub fn is_valid(&self, pos: Position) -> (r: bool)
        ensures
            r == in_bounds(self@.width, self@.height, pos),
    {
        pos.0 < self.width && pos.1 < self.height
    }

    /// Whether the body covers `pos`.
    fn occupies(&self, pos: Position) -> (r: bool)
        ensures
            r == self@.snake.contains(pos),
    {
        let n = self.snake.len();
        let mut i: usize = 0;
        while i < n
            invariant
                n == self@.snake.len(),
                i <= n,
                forall|j: int| 0 <= j < i ==> self@.snake[j] != pos,
            decreases n - i,
        {
            let c = self.snake[i];
            if c.0 == pos.0 && c.1 == pos.1 {
                assert(self@.snake[i as int] == pos);
                return true;
            }
            i += 1;
        }
        false
    }

    /// The cell next to the head in direction `d`, or `None` where that is off the board.
    fn neighbour(&self, d: Direction) -> (r: Option<Position>)
        requires
            self@.wf(),
            self@.snake.len() >= 1,
        ensures
            match r {
                Some(p) => on_board(self.width, self.height, moved(self@.snake[0], d))
                    && p == cell(moved(self@.snake[0], d)),
                None => !on_board(self.width, self.height, moved(self@.snake[0], d)),
            },
    {
        let head = self.snake[0];
        assert(in_bounds(self.width, self.height, self@.snake[0]));
        let x = head.0;
        let y = head.1;
        match d {
            Direction::Top => if y == 0 { None } else { Some((x, y - 1)) },
            Direction::Right => if x + 1 < self.width { Some((x + 1, y)) } else { None },
            Direction::Bottom => if y + 1 < self.height { Some((x, y + 1)) } else { None },
            Direction::Left => if x == 0 { None } else { Some((x - 1, y)) },
        }
    }

    /// The cells of the board that the body does not cover, row by row, left to right.
    pub fn free_positions(&self) -> (r: Vec<Position>)
        ensures
            r@ == self@.free(),
    {
        let mut free: Vec<Position> = Vec::new();
        let mut y: usize = 0;
        while y < self.height
            invariant
                y <= self.height,
                free@ == free_upto(self.width, self@.snake, y as nat, 0),
            decreases self.height - y,
        {
            let mut x: usize = 0;
            while x < self.width
                invariant
                    x <= self.width,
                    y < self.height,
                    free@ == free_upto(self.width, self@.snake, y as nat, x as nat),
                decreases self.width - x,
            {
                if !self.occupies((x, y)) {
                    free.push((x, y));
                }
                x += 1;
            }
            y += 1;
        }
        free
    }

    /// Advances the game by one tick; where the snake eats, the new food is the
    /// free cell at index `pick` modulo the number of free cells.
    pub fn tick_with_pick(&mut self, pick: usize)
        requires
            old(self)@.wf(),
        ensures
            final(self)@ == old(self)@.step(pick),
            final(self)@.wf(),
            !old(self)@.finished ==> final(self)@.snake.len() == old(self)@.snake.len()
                || final(self)@.snake.len() == old(self)@.snake.len() + 1,
    {
        if self.finished {
            return;
        }
        self.direction = self.next_direction;
        let target = self.neighbour(self.next_direction);
        match target {
            None => {
                self.finished = true;
            },
            Some(p) => {
                if self.occupies(p) {
                    self.finished = true;
                } else if p.0 != self.food.0 || p.1 != self.food.1 {
                    self.snake.pop_back();
                    self.snake.push_front(p);
                } else {
                    let free = self.free_positions();
                    if free.len() == 0 {
                        self.finished = true;
                    } else {
                        proof {
                            lemma_free_cells(self.width, self.height, self@.snake);
                        }
                        self.food = free[pick % free.len()];
                        self.snake.push_front(p);
                    }
                }
            },
        }
    }

    /// The number of free cells where the next tick eats and leaves some free
    /// cell for the food; `None` where it needs no new food.
    fn food_draw_bound(&self) -> (r: Option<usize>)
        requires
            self@.wf(),
        ensures
            match r {
                Some(n) => !self@.finished && self@.eats() && n == self@.free().len() && n > 0,
                None => self@.finished || !self@.eats() || self@.free().len() == 0,
            },
    {
        if self.finished {
            return None;
        }
        match self.neighbour(self.next_direction) {
            None => None,
            Some(p) => {
                if !self.occupies(p) && p.0 == self.food.0 && p.1 == self.food.1 {
                    let n = self.free_positions().len();
                    if n > 0 {
                        Some(n)
                    } else {
                        None
                    }
                } else {
                    None
                }
            },
        }
    }

    /// Advances the game by one tick, drawing the new food's cell from `rng`
    /// (with the range 0 to the number of free cells) where the snake eats.
    pub fn tick<R: RandomSource>(&mut self, rng: &mut R)
        requires
            old(self)@.wf(),
        ensures
            exists|pick: usize| final(self)@ == old(self)@.step(pick),
            final(self)@.wf(),
            !old(self)@.finished ==> final(self)@.snake.len() == old(self)@.snake.len()
                || final(self)@.snake.len() == old(self)@.snake.len() + 1,
    {
        let pick: usize = match self.food_draw_bound() {
            Some(n) => rng.random_range(0, n),
            None => 0,
        };
        self.tick_with_pick(pick);
    }
}

} // verus!
