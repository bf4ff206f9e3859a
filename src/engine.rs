use crate::direction::{dx, dy, Direction};
use crate::model::{Board, Coord, GameState};
use crate::policy::target_on_board;
use vstd::prelude::*;

verus! {

/// Whether a segment of some snake's body lies on the cell `(x, y)`.
pub open spec fn occupied(b: Board, x: int, y: int) -> bool {
    exists|i: int, j: int|
        0 <= i < b.snakes@.len() && 0 <= j < b.snakes@[i].body@.len() && (#[trigger] b.snakes@[i].body@[j]).x == x
            && b.snakes@[i].body@[j].y == y
}

/// A move that keeps the head on the board and off every snake's body.
pub open spec fn is_open_move(st: GameState, d: Direction) -> bool {
    &&& target_on_board(st.you.head, d, st.board.width, st.board.height)
    &&& !occupied(st.board, st.you.head.x + dx(d), st.you.head.y + dy(d))
}

/// The first open move in the order up, right, down, left, if there is one.
pub open spec fn cautious_spec(st: GameState) -> Option<Direction> {
    if is_open_move(st, Direction::Up) {
        Some(Direction::Up)
    } else if is_open_move(st, Direction::Right) {
        Some(Direction::Right)
    } else if is_open_move(st, Direction::Down) {
        Some(Direction::Down)
    } else if is_open_move(st, Direction::Left) {
        Some(Direction::Left)
    } else {
        None
    }
}

fn body_covers(body: &Vec<Coord>, x: u64, y: u64) -> (r: bool)
    ensures
        r == exists|j: int| 0 <= j < body@.len() && (#[trigger] body@[j]).x == x && body@[j].y == y,
{
    let mut j: usize = 0;
    while j < body.len()
        invariant
            j <= body@.len(),
            forall|k: int| 0 <= k < j ==> !((#[trigger] body@[k]).x == x && body@[k].y == y),
        decreases body@.len() - j,
    {
        if body[j].x as u64 == x && body[j].y as u64 == y {
            return true;
        }
        j = j + 1;
    }
    false
}

/// Whether a segment of some snake's body lies on the cell `(x, y)`.
pub fn is_occupied(board: &Board, x: u64, y: u64) -> (r: bool)
    ensures
        r == occupied(*board, x as int, y as int),
{
    let mut i: usize = 0;
    while i < board.snakes.len()
        invariant
            i <= board.snakes@.len(),
            forall|k: int, j: int|
                0 <= k < i && 0 <= j < board.snakes@[k].body@.len() ==> !((
                #[trigger] board.snakes@[k].body@[j]).x == x && board.snakes@[k].body@[j].y == y),
        decreases board.snakes@.len() - i,
    {
        if body_covers(&board.snakes[i].body, x, y) {
            return true;
        }
        i = i + 1;
    }
    false
}

/// Whether moving in `d` keeps the head on the board and off every body.
pub fn is_open(state: &GameState, d: Direction) -> (r: bool)
    ensures
        r == is_open_move(*state, d),
{
    let x = state.you.head.x as u64;
    let y = state.you.head.y as u64;
    let (w, h) = (state.board.width as u64, state.board.height as u64);
    let (tx, ty) = match d {
        Direction::Up => (x, y + 1),
        Direction::Down => {
            if y == 0 {
                return false;
            }
            (x, y - 1)
        },
        Direction::Left => {
            if x == 0 {
                return false;
            }
            (x - 1, y)
        },
        Direction::Right => (x + 1, y),
    };
    tx < w && ty < h && !is_occupied(&state.board, tx, ty)
}

/// A cautious strategy for the decision engine: the first move, in the order
/// up, right, down, left, that stays on the board and off every snake's body.
pub fn cautious_move(state: &GameState) -> (r: Option<Direction>)
    ensures
        r == cautious_spec(*state),
{
    if is_open(state, Direction::Up) {
        Some(Direction::Up)
    } else if is_open(state, Direction::Right) {
        Some(Direction::Right)
    } else if is_open(state, Direction::Down) {
        Some(Direction::Down)
    } else if is_open(state, Direction::Left) {
        Some(Direction::Left)
    } else {
        None
    }
}

} // verus!
