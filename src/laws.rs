use vstd::prelude::*;

use crate::game::Direction;
use crate::model::{cell, lemma_free_cells, opposite, GameView};

verus! {

/// The state after the direction requests `ds`, made one after another.
pub open spec fn requests(s: GameView, ds: Seq<Direction>) -> GameView
    decreases ds.len(),
{
    if ds.len() == 0 {
        s
    } else {
        requests(s, ds.drop_last()).request(ds.last())
    }
}

/// The state after one tick per entry of `moves`, each tick preceded by the
/// entry's direction request if it has one, the food always taking the first
/// free cell.
pub open spec fn replay(s: GameView, moves: Seq<Option<Direction>>) -> GameView
    decreases moves.len(),
{
    if moves.len() == 0 {
        s
    } else {
        let before = replay(s, moves.drop_last());
        let turned = match moves.last() {
            Some(d) => before.request(d),
            None => before,
        };
        turned.step(0)
    }
}

/// Once a game is finished, no sequence of direction requests changes it.
pub proof fn lemma_finished_ignores_requests(s: GameView, ds: Seq<Direction>)
    requires
        s.finished,
    ensures
        requests(s, ds) == s,
    decreases ds.len(),
{
    if ds.len() > 0 {
        lemma_finished_ignores_requests(s, ds.drop_last());
    }
}

/// In a running game, asking for the opposite of the current direction leaves
/// the pending direction as it was, and asking for a quarter turn makes it the
/// pending direction.
pub proof fn lemma_no_direct_reversal(s: GameView, d: Direction)
    requires
        !s.finished,
    ensures
        s.request(opposite(s.direction)).next_direction == s.next_direction,
        d != s.direction && d != opposite(s.direction) ==> s.request(d).next_direction == d,
{
}

/// A tick that leaves the game running leaves the food off the body, provided
/// that before it the food lay on no cell of the body but perhaps the tail, and
/// that where the snake eats, the cell drawn for the food is not the one its
/// head moves to.
pub proof fn lemma_food_off_body(s: GameView, pick: usize)
    requires
        s.wf(),
        !s.snake.drop_last().contains(s.food),
        s.eats() && s.free().len() > 0 ==> s.free()[pick as int % s.free().len() as int] != cell(
            s.target(),
        ),
    ensures
        !s.step(pick).finished ==> !s.step(pick).snake.contains(s.step(pick).food),
{
    let t = s.step(pick);
    if !s.finished && !t.finished {
        let head = cell(s.target());
        if head != s.food {
            assert forall|i: int| 0 <= i < t.snake.len() implies t.snake[i] != t.food by {
                if i > 0 {
                    assert(t.snake[i] == s.snake.drop_last()[i - 1]);
                }
            }
        } else {
            lemma_free_cells(s.width, s.height, s.snake);
            let k = pick as int % s.free().len() as int;
            assert(t.food == s.free()[k]);
            assert forall|i: int| 0 <= i < t.snake.len() implies t.snake[i] != t.food by {
                if i > 0 {
                    assert(t.snake[i] == s.snake[i - 1]);
                }
            }
        }
    }
}

/// Two games in the same state, driven by the same direction requests with the
/// food always taking the first free cell, pass through the same states.
pub proof fn lemma_replay_deterministic(a: GameView, b: GameView, moves: Seq<Option<Direction>>)
    requires
        a == b,
    ensures
        forall|i: int| 0 <= i <= moves.len() ==> #[trigger] replay(a, moves.take(i)) == replay(b, moves.take(i)),
{
}

} // verus!
