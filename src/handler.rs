use crate::direction::{direction_name, is_move_name, lemma_names_parse_back, parse_direction_spec, Direction};
use crate::model::{state_wf, GameState, MalformedRequest};
use crate::policy::{fallback_move, fallback_spec, has_safe_move, is_safe_move, lemma_fallback_is_safe};
use vstd::prelude::*;

verus! {

/// Time kept back from the game's per-move timeout for serialization and
/// network transit, in milliseconds.
pub const SAFETY_MARGIN_MS: u32 = 50;

/// Longest shout, in characters, that a move response carries.
pub const MAX_SHOUT_CHARS: usize = 256;

pub const STATUS_OK: u16 = 200;

pub const STATUS_BAD_REQUEST: u16 = 400;

/// What became of one call of the decision engine.
#[derive(Clone, Debug)]
pub enum EngineOutcome {
    /// The engine answered before the deadline with a move name and a shout.
    Replied { chosen: String, shout: Option<String> },
    /// The engine failed (an error or a panic) before answering.
    Failed,
    /// The deadline passed before the engine answered.
    TimedOut,
}

/// The body of a move response.
#[derive(Clone, Debug)]
pub struct MoveResponse {
    pub direction: Direction,
    pub shout: Option<String>,
}

/// A shout cut down to its first `MAX_SHOUT_CHARS` characters.
pub open spec fn truncated(s: Seq<char>) -> Seq<char> {
    if s.len() <= MAX_SHOUT_CHARS {
        s
    } else {
        s.subrange(0, MAX_SHOUT_CHARS as int)
    }
}

/// The direction answered for `st` after the engine's `outcome`: the engine's
/// own choice when it named one of the four moves in time, else the fallback.
pub open spec fn resolved_direction(st: GameState, outcome: EngineOutcome) -> Direction {
    match outcome {
        EngineOutcome::Replied { chosen, .. } => match parse_direction_spec(chosen@) {
            Some(d) => d,
            None => fallback_spec(st.you, st.board.width, st.board.height),
        },
        _ => fallback_spec(st.you, st.board.width, st.board.height),
    }
}

/// The shout sent with the move: the engine's own, truncated, when its move
/// is passed through; none otherwise.
pub open spec fn resolved_shout(outcome: EngineOutcome) -> Option<Seq<char>> {
    match outcome {
        EngineOutcome::Replied { chosen, shout } => match (parse_direction_spec(chosen@), shout) {
            (Some(_), Some(s)) => Some(truncated(s@)),
            _ => None,
        },
        _ => None,
    }
}

pub open spec fn shout_view(s: Option<String>) -> Option<Seq<char>> {
    match s {
        Some(t) => Some(t@),
        None => None,
    }
}

/// Cuts a shout down to at most `MAX_SHOUT_CHARS` characters.
pub fn truncate_shout(s: &str) -> (r: String)
    ensures
        r@ == truncated(s@),
{
    let n = s.unicode_len();
    if n <= MAX_SHOUT_CHARS {
        s.to_owned()
    } else {
        s.substring_char(0, MAX_SHOUT_CHARS).to_owned()
    }
}

/// How long the engine may run for a move, given the game's timeout.
pub fn move_budget_ms(timeout_ms: u32) -> (r: u32)
    ensures
        r == if timeout_ms > SAFETY_MARGIN_MS {
            timeout_ms - SAFETY_MARGIN_MS
        } else {
            0
        },
{
    if timeout_ms > SAFETY_MARGIN_MS {
        timeout_ms - SAFETY_MARGIN_MS
    } else {
        0
    }
}

/// Turns the engine's outcome into the move response for `state`.
pub fn resolve_move(state: &GameState, outcome: &EngineOutcome) -> (r: MoveResponse)
    ensures
        r.direction == resolved_direction(*state, *outcome),
        shout_view(r.shout) == resolved_shout(*outcome),
{
    match outcome {
        EngineOutcome::Replied { chosen, shout } => match Direction::parse(chosen.as_str()) {
            Some(d) => {
                let shout = match shout {
                    Some(s) => Some(truncate_shout(s.as_str())),
                    None => None,
                };
                MoveResponse { direction: d, shout }
            },
            None => MoveResponse { direction: fallback_move(&state.board, &state.you), shout: None },
        },
        _ => MoveResponse { direction: fallback_move(&state.board, &state.you), shout: None },
    }
}

/// Handles a move request: a malformed turn state is refused, any other gets
/// a move whatever the engine did.
pub fn handle_move(state: &GameState, outcome: &EngineOutcome) -> (r: Result<
    MoveResponse,
    MalformedRequest,
>)
    ensures
        r is Ok <==> state_wf(*state),
        r matches Ok(m) ==> m.direction == resolved_direction(*state, *outcome) && shout_view(
            m.shout,
        ) == resolved_shout(*outcome),
{
    match state.validate() {
        Ok(()) => Ok(resolve_move(state, outcome)),
        Err(e) => Err(e),
    }
}

/// The HTTP status for a handler's result.
pub fn status_of<T>(r: &Result<T, MalformedRequest>) -> (s: u16)
    ensures
        s == if r is Ok {
            STATUS_OK
        } else {
            STATUS_BAD_REQUEST
        },
{
    match r {
        Ok(_) => STATUS_OK,
        Err(_) => STATUS_BAD_REQUEST,
    }
}

/// Handles the notice that a game has begun; only acknowledges it.
pub fn handle_start(state: &GameState) -> (s: u16)
    ensures
        s == if state_wf(*state) {
            STATUS_OK
        } else {
            STATUS_BAD_REQUEST
        },
{
    status_of(&state.validate())
}

/// Handles the notice that a game is over; only acknowledges it.
pub fn handle_end(state: &GameState) -> (s: u16)
    ensures
        s == if state_wf(*state) {
            STATUS_OK
        } else {
            STATUS_BAD_REQUEST
        },
{
    status_of(&state.validate())
}

impl MoveResponse {
    /// The wire name of the chosen move.
    pub fn move_name(&self) -> (r: String)
        ensures
            r@ == direction_name(self.direction),
            is_move_name(r@),
    {
        self.direction.as_str()
    }
}

/// Whatever the engine did, the move answered is one of the four move names.
pub proof fn lemma_move_is_named(st: GameState, outcome: EngineOutcome)
    ensures
        is_move_name(direction_name(resolved_direction(st, outcome))),
{
    lemma_names_parse_back(resolved_direction(st, outcome));
}

/// A move that the engine named in time is answered unchanged.
pub proof fn lemma_engine_move_passes_through(st: GameState, chosen: String, shout: Option<String>, d: Direction)
    requires
        chosen@ == direction_name(d),
    ensures
        resolved_direction(st, EngineOutcome::Replied { chosen, shout }) == d,
{
    lemma_names_parse_back(d);
}

/// When the engine fails or runs out of time, the answer is the fallback move,
/// and it is a safe one wherever some move is safe.
pub proof fn lemma_failed_engine_falls_back(st: GameState, outcome: EngineOutcome)
    requires
        outcome is Failed || outcome is TimedOut,
    ensures
        resolved_direction(st, outcome) == fallback_spec(st.you, st.board.width, st.board.height),
        has_safe_move(st.you, st.board.width, st.board.height) ==> is_safe_move(
            st.you,
            st.board.width,
            st.board.height,
            resolved_direction(st, outcome),
        ),
{
    if has_safe_move(st.you, st.board.width, st.board.height) {
        lemma_fallback_is_safe(st.you, st.board.width, st.board.height);
    }
}

} // verus!
