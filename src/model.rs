use vstd::prelude::*;

use crate::game::{Direction, Position};

verus! {

/// What a game holds, with the snake's body as a sequence, head first.
pub struct GameView {
    pub width: usize,
    pub height: usize,
    pub snake: Seq<Position>,
    pub direction: Direction,
    pub next_direction: Direction,
    pub food: Position,
    pub finished: bool,
}

/// The direction that points the other way.
pub open spec fn opposite(d: Direction) -> Direction {
    match d {
        Direction::Top => Direction::Bottom,
        Direction::Right => Direction::Left,
        Direction::Bottom => Direction::Top,
        Direction::Left => Direction::Right,
    }
}

/// The cell next to `p` in direction `d`, in integer coordinates (it may lie off the board).
pub open spec fn moved(p: Position, d: Direction) -> (int, int) {
    match d {
        Direction::Top => (p.0 as int, p.1 - 1),
        Direction::Right => (p.0 + 1, p.1 as int),
        Direction::Bottom => (p.0 as int, p.1 + 1),
        Direction::Left => (p.0 - 1, p.1 as int),
    }
}

pub open spec fn on_board(width: usize, height: usize, c: (int, int)) -> bool {
    0 <= c.0 < width && 0 <= c.1 < height
}

pub open spec fn in_bounds(width: usize, height: usize, p: Position) -> bool {
    p.0 < width && p.1 < height
}

pub open spec fn cell(c: (int, int)) -> Position {
    (c.0 as usize, c.1 as usize)
}

/// The free cells of the rows above `y`, then those of row `y` left of column `x`,
/// in row-major order.
pub open spec fn free_upto(width: usize, body: Seq<Position>, y: nat, x: nat) -> Seq<Position>
    decreases y, x,
{
    if x == 0 {
        if y == 0 {
            Seq::empty()
        } else {
            free_upto(width, body, (y - 1) as nat, width as nat)
        }
    } else {
        let prev = free_upto(width, body, y, (x - 1) as nat);
        let c: Position = ((x - 1) as usize, y as usize);
        if body.contains(c) {
            prev
        } else {
            prev.push(c)
        }
    }
}

/// The cells of the board that `body` does not cover, row by row, left to right.
pub open spec fn free_cells(width: usize, height: usize, body: Seq<Position>) -> Seq<Position> {
    free_upto(width, body, height as nat, 0)
}

/// Every cell in `free_upto(width, body, y, x)` is off the body and lies before
/// (x, y) in row-major order on a board `width` wide.
pub proof fn lemma_free_upto_cells(width: usize, body: Seq<Position>, y: nat, x: nat)
    requires
        x <= width,
        y <= usize::MAX,
    ensures
        forall|i: int|
            0 <= i < free_upto(width, body, y, x).len() ==> {
                let p = #[trigger] free_upto(width, body, y, x)[i];
                &&& !body.contains(p)
                &&& p.0 < width
                &&& p.1 <= y
                &&& p.1 == y ==> p.0 < x
            },
    decreases y, x,
{
    if x == 0 {
        if y > 0 {
            lemma_free_upto_cells(width, body, (y - 1) as nat, width as nat);
            assert(free_upto(width, body, y, x) == free_upto(width, body, (y - 1) as nat, width as nat));
        }
    } else {
        lemma_free_upto_cells(width, body, y, (x - 1) as nat);
        let prev = free_upto(width, body, y, (x - 1) as nat);
        let c: Position = ((x - 1) as usize, y as usize);
        assert(c.0 == x - 1 && c.1 == y);
        if !body.contains(c) {
            assert forall|i: int| 0 <= i < prev.push(c).len() implies #[trigger] prev.push(c)[i] == (
            if i < prev.len() {
                prev[i]
            } else {
                c
            }) by {}
            assert(free_upto(width, body, y, x) == prev.push(c));
        } else {
            assert(free_upto(width, body, y, x) == prev);
        }
    }
}

/// Every free cell lies on the board and off the body.
pub proof fn lemma_free_cells(width: usize, height: usize, body: Seq<Position>)
    ensures
        forall|i: int|
            0 <= i < free_cells(width, height, body).len() ==> {
                let p = #[trigger] free_cells(width, height, body)[i];
                !body.contains(p) && in_bounds(width, height, p)
            },
{
    lemma_free_upto_cells(width, body, height as nat, 0);
}

pub open spec fn no_duplicates(s: Seq<Position>) -> bool {
    forall|i: int, j: int| 0 <= i < j < s.len() ==> s[i] != s[j]
}

impl GameView {
    /// A game that its own operations can reach: a non-empty board, the body and
    /// the food on it, no cell of the body twice, a body while the game runs.
    pub open spec fn wf(self) -> bool {
        &&& self.width >= 1
        &&& self.height >= 1
        &&& !self.finished ==> self.snake.len() >= 1
        &&& forall|i: int| 0 <= i < self.snake.len() ==> in_bounds(self.width, self.height, #[trigger] self.snake[i])
        &&& no_duplicates(self.snake)
        &&& in_bounds(self.width, self.height, self.food)
    }

    /// The cell the head moves to on the next tick.
    pub open spec fn target(self) -> (int, int) {
        moved(self.snake[0], self.next_direction)
    }

    /// The next tick runs into a wall or into the body.
    pub open spec fn collides(self) -> bool {
        !on_board(self.width, self.height, self.target()) || self.snake.contains(cell(self.target()))
    }

    /// The next tick moves the head onto the food.
    pub open spec fn eats(self) -> bool {
        !self.collides() && cell(self.target()) == self.food
    }

    pub open spec fn free(self) -> Seq<Position> {
        free_cells(self.width, self.height, self.snake)
    }

    /// The state after a direction request.
    pub open spec fn request(self, d: Direction) -> GameView {
        if self.finished || d == self.direction || d == opposite(self.direction) {
            self
        } else {
            GameView { next_direction: d, ..self }
        }
    }

    /// The state after one tick, where `pick` chooses the new food among the free
    /// cells (taken modulo their number).
    pub open spec fn step(self, pick: usize) -> GameView {
        if self.finished {
            self
        } else {
            let turned = GameView { direction: self.next_direction, ..self };
            let head = cell(self.target());
            if self.collides() {
                GameView { finished: true, ..turned }
            } else if head != self.food {
                GameView { snake: seq![head] + self.snake.drop_last(), ..turned }
            } else if self.free().len() == 0 {
                GameView { finished: true, ..turned }
            } else {
                GameView {
                    snake: seq![head] + self.snake,
                    food: self.free()[pick as int % self.free().len() as int],
                    ..turned
                }
            }
        }
    }
}

/// The state in which a new game starts.
pub open spec fn start(width: usize, height: usize) -> GameView {
    let row = height / 2;
    GameView {
        width,
        height,
        snake: seq![(if width >= 3 { (width - 3) as usize } else { 0usize }, row)],
        direction: Direction::Left,
        next_direction: Direction::Left,
        food: (if width - 1 < 2 { (width - 1) as usize } else { 2usize }, row),
        finished: false,
    }
}

} // verus!
