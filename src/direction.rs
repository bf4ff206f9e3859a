use vstd::prelude::*;

verus! {

/// One of the four moves a snake can make; `Up` increases `y`.
#[derive(Clone, Copy, Debug, PartialEq, Eq, Structural)]
pub enum Direction {
    Up,
    Down,
    Left,
    Right,
}

/// The wire name of a direction.
pub open spec fn direction_name(d: Direction) -> Seq<char> {
    match d {
        Direction::Up => seq!['u', 'p'],
        Direction::Down => seq!['d', 'o', 'w', 'n'],
        Direction::Left => seq!['l', 'e', 'f', 't'],
        Direction::Right => seq!['r', 'i', 'g', 'h', 't'],
    }
}

/// The four names a move response may carry.
pub open spec fn is_move_name(s: Seq<char>) -> bool {
    s == seq!['u', 'p'] || s == seq!['d', 'o', 'w', 'n'] || s == seq!['l', 'e', 'f', 't'] || s
        == seq!['r', 'i', 'g', 'h', 't']
}

/// The direction a wire name stands for, if it is one of the four.
pub open spec fn parse_direction_spec(s: Seq<char>) -> Option<Direction> {
    if s == direction_name(Direction::Up) {
        Some(Direction::Up)
    } else if s == direction_name(Direction::Down) {
        Some(Direction::Down)
    } else if s == direction_name(Direction::Left) {
        Some(Direction::Left)
    } else if s == direction_name(Direction::Right) {
        Some(Direction::Right)
    } else {
        None
    }
}

/// Change of `x` when moving in `d`.
pub open spec fn dx(d: Direction) -> int {
    match d {
        Direction::Left => -1,
        Direction::Right => 1,
        _ => 0,
    }
}

/// Change of `y` when moving in `d`.
pub open spec fn dy(d: Direction) -> int {
    match d {
        Direction::Up => 1,
        Direction::Down => -1,
        _ => 0,
    }
}

/// Distinct directions have distinct names, and each name parses back.
pub proof fn lemma_names_parse_back(d: Direction)
    ensures
        is_move_name(direction_name(d)),
        parse_direction_spec(direction_name(d)) == Some(d),
{
    assert(seq!['u', 'p'] != seq!['d', 'o', 'w', 'n']);
    assert(seq!['u', 'p'] != seq!['l', 'e', 'f', 't']);
    assert(seq!['u', 'p'] != seq!['r', 'i', 'g', 'h', 't']);
    assert(seq!['d', 'o', 'w', 'n'] != seq!['r', 'i', 'g', 'h', 't']);
    assert(seq!['l', 'e', 'f', 't'] != seq!['r', 'i', 'g', 'h', 't']);
    assert(seq!['d', 'o', 'w', 'n'][0] != seq!['l', 'e', 'f', 't'][0]);
}

fn chars_are(s: &str, expected: &[char]) -> (r: bool)
    ensures
        r == (s@ == expected@),
{
    let n = s.unicode_len();
    if n != expected.len() {
        return false;
    }
    let mut i: usize = 0;
    while i < n
        invariant
            n == s@.len(),
            n == expected@.len(),
            i <= n,
            forall|k: int| 0 <= k < i ==> s@[k] == expected@[k],
        decreases n - i,
    {
        if s.get_char(i) != expected[i] {
            return false;
        }
        i = i + 1;
    }
    assert(s@ =~= expected@);
    true
}

impl Direction {
    /// The wire name: one of "up", "down", "left", "right".
    pub fn as_str(&self) -> (r: String)
        ensures
            r@ == direction_name(*self),
            is_move_name(r@),
    {
        let r = match self {
            Direction::Up => {
                proof {
                    reveal_strlit("up");
                }
                "up".to_owned()
            },
            Direction::Down => {
                proof {
                    reveal_strlit("down");
                }
                "down".to_owned()
            },
            Direction::Left => {
                proof {
                    reveal_strlit("left");
                }
                "left".to_owned()
            },
            Direction::Right => {
                proof {
                    reveal_strlit("right");
                }
                "right".to_owned()
            },
        };
        assert(r@ =~= direction_name(*self));
        proof {
            lemma_names_parse_back(*self);
        }
        r
    }

    /// Reads a wire name; anything but the four names gives `None`.
    pub fn parse(s: &str) -> (r: Option<Direction>)
        ensures
            r == parse_direction_spec(s@),
    {
        if chars_are(s, &['u', 'p']) {
            Some(Direction::Up)
        } else if chars_are(s, &['d', 'o', 'w', 'n']) {
            Some(Direction::Down)
        } else if chars_are(s, &['l', 'e', 'f', 't']) {
            Some(Direction::Left)
        } else if chars_are(s, &['r', 'i', 'g', 'h', 't']) {
            Some(Direction::Right)
        } else {
            None
        }
    }
}

} // verus!
