use std::collections::HashMap;
use vstd::prelude::*;

verus! {

/// The ruleset values are carried through untouched as JSON values.
#[verifier::external_type_specification]
#[verifier::external_body]
pub struct ExJsonValue(serde_json::Value);

/// A cell of the board; `x` grows to the right and `y` grows upwards.
#[derive(Clone, Copy, Debug, PartialEq, Eq, Structural)]
pub struct Coord {
    pub x: u32,
    pub y: u32,
}

/// One snake as the game engine reports it, body ordered from head to tail.
#[derive(Clone, Debug)]
pub struct Battlesnake {
    pub id: String,
    pub name: String,
    pub health: u32,
    pub body: Vec<Coord>,
    pub head: Coord,
    pub length: u32,
    pub latency: String,
    pub shout: Option<String>,
}

#[derive(Clone, Debug)]
pub struct Board {
    pub height: u32,
    pub width: u32,
    pub food: Vec<Coord>,
    pub snakes: Vec<Battlesnake>,
    pub hazards: Vec<Coord>,
}

#[derive(Clone, Debug)]
pub struct Game {
    pub id: String,
    pub ruleset: HashMap<String, serde_json::Value>,
    /// Time allowed for each move, in milliseconds.
    pub timeout: u32,
}

/// The payload of every lifecycle request.
#[derive(Clone, Debug)]
pub struct GameState {
    pub game: Game,
    pub turn: u32,
    pub board: Board,
    pub you: Battlesnake,
}

/// A payload that does not describe a valid turn.
#[derive(Clone, Copy, Debug, PartialEq, Eq, Structural)]
pub struct MalformedRequest;

pub const MAX_HEALTH: u32 = 100;

pub open spec fn coord_on_board(c: Coord, width: u32, height: u32) -> bool {
    c.x < width && c.y < height
}

pub open spec fn all_on_board(cs: Seq<Coord>, width: u32, height: u32) -> bool {
    forall|i: int| 0 <= i < cs.len() ==> coord_on_board(#[trigger] cs[i], width, height)
}

/// A snake whose record is consistent and lies on a `width` by `height` board.
pub open spec fn snake_wf(s: Battlesnake, width: u32, height: u32) -> bool {
    &&& s.body@.len() > 0
    &&& s.head == s.body@[0]
    &&& s.length as nat == s.body@.len()
    &&& s.health <= MAX_HEALTH
    &&& all_on_board(s.body@, width, height)
}

/// No two snakes on the board share an identifier.
pub open spec fn snake_ids_unique(b: Board) -> bool {
    forall|i: int, j: int|
        0 <= i < b.snakes@.len() && 0 <= j < b.snakes@.len() && i != j ==> #[trigger] b.snakes@[i].id@
            != #[trigger] b.snakes@[j].id@
}

pub open spec fn board_wf(b: Board) -> bool {
    &&& b.width > 0
    &&& b.height > 0
    &&& all_on_board(b.food@, b.width, b.height)
    &&& all_on_board(b.hazards@, b.width, b.height)
    &&& forall|i: int| 0 <= i < b.snakes@.len() ==> snake_wf(#[trigger] b.snakes@[i], b.width, b.height)
    &&& snake_ids_unique(b)
}

/// Whether some snake on the board carries the identifier `id`.
pub open spec fn has_snake_id(b: Board, id: Seq<char>) -> bool {
    exists|i: int| 0 <= i < b.snakes@.len() && (#[trigger] b.snakes@[i]).id@ == id
}

/// A turn state that satisfies every invariant of the data model.
pub open spec fn state_wf(st: GameState) -> bool {
    &&& board_wf(st.board)
    &&& snake_wf(st.you, st.board.width, st.board.height)
    &&& has_snake_id(st.board, st.you.id@)
}

fn coords_on_board(cs: &Vec<Coord>, width: u32, height: u32) -> (r: bool)
    ensures
        r == all_on_board(cs@, width, height),
{
    let mut i: usize = 0;
    while i < cs.len()
        invariant
            i <= cs@.len(),
            all_on_board(cs@.subrange(0, i as int), width, height),
        decreases cs@.len() - i,
    {
        if cs[i].x >= width || cs[i].y >= height {
            return false;
        }
        assert(cs@.subrange(0, i as int + 1)[i as int] == cs@[i as int]);
        assert forall|k: int| 0 <= k < i + 1 implies coord_on_board(
            #[trigger] cs@.subrange(0, i as int + 1)[k],
            width,
            height,
        ) by {
            if k < i {
                assert(cs@.subrange(0, i as int)[k] == cs@[k]);
            }
        }
        i = i + 1;
    }
    assert(cs@.subrange(0, i as int) =~= cs@);
    true
}

impl Battlesnake {
    /// Checks the snake's own invariants on a `width` by `height` board.
    pub fn is_valid_on(&self, width: u32, height: u32) -> (r: bool)
        ensures
            r == snake_wf(*self, width, height),
    {
        self.body.len() > 0 && self.head == self.body[0] && self.length as usize == self.body.len()
            && self.health <= MAX_HEALTH && coords_on_board(&self.body, width, height)
    }
}

fn snakes_valid_on(snakes: &Vec<Battlesnake>, width: u32, height: u32) -> (r: bool)
    ensures
        r == forall|i: int| 0 <= i < snakes@.len() ==> snake_wf(#[trigger] snakes@[i], width, height),
{
    let mut i: usize = 0;
    while i < snakes.len()
        invariant
            i <= snakes@.len(),
            forall|k: int| 0 <= k < i ==> snake_wf(#[trigger] snakes@[k], width, height),
        decreases snakes@.len() - i,
    {
        if !snakes[i].is_valid_on(width, height) {
            return false;
        }
        i = i + 1;
    }
    true
}

fn ids_distinct(snakes: &Vec<Battlesnake>) -> (r: bool)
    ensures
        r == forall|i: int, j: int|
            0 <= i < snakes@.len() && 0 <= j < snakes@.len() && i != j ==> #[trigger] snakes@[i].id@
                != #[trigger] snakes@[j].id@,
{
    let n = snakes.len();
    let mut i: usize = 0;
    while i < n
        invariant
            n == snakes@.len(),
            i <= n,
            forall|a: int, b: int|
                0 <= a < i && a < b < n ==> #[trigger] snakes@[a].id@ != #[trigger] snakes@[b].id@,
        decreases n - i,
    {
        let mut j: usize = i + 1;
        while j < n
            invariant
                n == snakes@.len(),
                i < n,
                i + 1 <= j <= n,
                forall|a: int, b: int|
                    0 <= a < i && a < b < n ==> #[trigger] snakes@[a].id@ != #[trigger] snakes@[b].id@,
                forall|b: int| i < b < j ==> snakes@[i as int].id@ != #[trigger] snakes@[b].id@,
            decreases n - j,
        {
            if snakes[i].id == snakes[j].id {
                return false;
            }
            j = j + 1;
        }
        i = i + 1;
    }
    assert forall|a: int, b: int|
        0 <= a < n && 0 <= b < n && a != b implies #[trigger] snakes@[a].id@
            != #[trigger] snakes@[b].id@ by {
        if b < a {
            assert(snakes@[b].id@ != snakes@[a].id@);
        }
    }
    true
}

impl Board {
    /// Checks the board's dimensions, that every coordinate on it lies inside,
    /// that every snake is valid, and that no two snakes share an identifier.
    pub fn is_valid(&self) -> (r: bool)
        ensures
            r == board_wf(*self),
    {
        self.width > 0 && self.height > 0 && coords_on_board(&self.food, self.width, self.height)
            && coords_on_board(&self.hazards, self.width, self.height) && snakes_valid_on(
            &self.snakes,
            self.width,
            self.height,
        ) && ids_distinct(&self.snakes)
    }

    /// Whether some snake on the board carries the identifier `id`.
    pub fn has_snake(&self, id: &String) -> (r: bool)
        ensures
            r == has_snake_id(*self, id@),
    {
        let mut i: usize = 0;
        while i < self.snakes.len()
            invariant
                i <= self.snakes@.len(),
                forall|k: int| 0 <= k < i ==> (#[trigger] self.snakes@[k]).id@ != id@,
            decreases self.snakes@.len() - i,
        {
            if self.snakes[i].id == *id {
                return true;
            }
            i = i + 1;
        }
        false
    }
}

impl GameState {
    /// Accepts a turn state exactly when it satisfies the data model's invariants.
    pub fn validate(&self) -> (r: Result<(), MalformedRequest>)
        ensures
            r is Ok <==> state_wf(*self),
    {
        if self.board.is_valid() && self.you.is_valid_on(self.board.width, self.board.height)
            && self.board.has_snake(&self.you.id) {
            Ok(())
        } else {
            Err(MalformedRequest)
        }
    }
}

} // verus!
