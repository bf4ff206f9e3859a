use crate::direction::{dx, dy, Direction};
use crate::model::{snake_wf, Battlesnake, Board, Coord};
use vstd::prelude::*;

verus! {

/// Whether the cell reached from `c` by moving in `d` lies on the board.
pub open spec fn target_on_board(c: Coord, d: Direction, width: u32, height: u32) -> bool {
    &&& 0 <= c.x + dx(d) < width
    &&& 0 <= c.y + dy(d) < height
}

/// Whether moving from `from` in direction `d` lands on `to`.
pub open spec fn points_to(from: Coord, to: Coord, d: Direction) -> bool {
    from.x + dx(d) == to.x && from.y + dy(d) == to.y
}

/// A move that keeps the head on the board and off the snake's own neck.
pub open spec fn is_safe_move(you: Battlesnake, width: u32, height: u32, d: Direction) -> bool {
    &&& target_on_board(you.head, d, width, height)
    &&& !(you.body@.len() >= 2 && points_to(you.head, you.body@[1], d))
}

pub open spec fn has_safe_move(you: Battlesnake, width: u32, height: u32) -> bool {
    exists|d: Direction| is_safe_move(you, width, height, d)
}

/// The first safe move in the order up, right, down, left; up when none is safe.
pub open spec fn fallback_spec(you: Battlesnake, width: u32, height: u32) -> Direction {
    if is_safe_move(you, width, height, Direction::Up) {
        Direction::Up
    } else if is_safe_move(you, width, height, Direction::Right) {
        Direction::Right
    } else if is_safe_move(you, width, height, Direction::Down) {
        Direction::Down
    } else if is_safe_move(you, width, height, Direction::Left) {
        Direction::Left
    } else {
        Direction::Up
    }
}

/// Whether moving `you` in `d` is safe on a `width` by `height` board.
pub fn is_safe(you: &Battlesnake, width: u32, height: u32, d: Direction) -> (r: bool)
    ensures
        r == is_safe_move(*you, width, height, d),
{
    let x = you.head.x as u64;
    let y = you.head.y as u64;
    let on_board = match d {
        Direction::Up => y + 1 < height as u64 && x < width as u64,
        Direction::Down => y >= 1 && y - 1 < height as u64 && x < width as u64,
        Direction::Left => x >= 1 && x - 1 < width as u64 && y < height as u64,
        Direction::Right => x + 1 < width as u64 && y < height as u64,
    };
    if !on_board {
        return false;
    }
    if you.body.len() < 2 {
        return true;
    }
    let neck = you.body[1];
    let (nx, ny) = (neck.x as u64, neck.y as u64);
    let onto_neck = match d {
        Direction::Up => nx == x && ny == y + 1,
        Direction::Down => nx == x && ny + 1 == y,
        Direction::Left => nx + 1 == x && ny == y,
        Direction::Right => nx == x + 1 && ny == y,
    };
    !onto_neck
}

/// The move sent when the decision engine gives none in time.
pub fn fallback_move(board: &Board, you: &Battlesnake) -> (r: Direction)
    ensures
        r == fallback_spec(*you, board.width, board.height),
{
    let (w, h) = (board.width, board.height);
    if is_safe(you, w, h, Direction::Up) {
        Direction::Up
    } else if is_safe(you, w, h, Direction::Right) {
        Direction::Right
    } else if is_safe(you, w, h, Direction::Down) {
        Direction::Down
    } else if is_safe(you, w, h, Direction::Left) {
        Direction::Left
    } else {
        Direction::Up
    }
}

/// Whenever some move is safe, the fallback move is safe.
pub proof fn lemma_fallback_is_safe(you: Battlesnake, width: u32, height: u32)
    requires
        has_safe_move(you, width, height),
    ensures
        is_safe_move(you, width, height, fallback_spec(you, width, height)),
{
    let d = choose|d: Direction| is_safe_move(you, width, height, d);
    match d {
        Direction::Up => {},
        Direction::Right => {},
        Direction::Down => {},
        Direction::Left => {},
    }
}

/// For a snake of two or more segments whose head leads its body, the fallback
/// move never turns the head back onto the second segment, on any board where
/// some move is safe.
pub proof fn lemma_fallback_never_reverses(you: Battlesnake, width: u32, height: u32)
    requires
        you.body@.len() >= 2,
        you.head == you.body@[0],
        has_safe_move(you, width, height),
    ensures
        !points_to(you.body@[0], you.body@[1], fallback_spec(you, width, height)),
{
    lemma_fallback_is_safe(you, width, height);
}

/// On a board at least two cells wide and two cells high, a valid snake always
/// has a safe move.
pub proof fn lemma_roomy_board_has_safe_move(you: Battlesnake, width: u32, height: u32)
    requires
        snake_wf(you, width, height),
        width >= 2,
        height >= 2,
    ensures
        has_safe_move(you, width, height),
{
    assert(you.head == you.body@[0]);
    let hd = if you.head.x + 1 < width {
        Direction::Right
    } else {
        Direction::Left
    };
    let vd = if you.head.y + 1 < height {
        Direction::Up
    } else {
        Direction::Down
    };
    if is_safe_move(you, width, height, hd) {
    } else {
        assert(is_safe_move(you, width, height, vd));
    }
}

} // verus!
