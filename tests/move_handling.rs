use starter_snake::{
    cautious_move, fallback_move, handle_end, handle_move, handle_start, info, move_budget_ms,
    resolve_move, status_of, truncate_shout, Battlesnake, Board, Coord, Direction, EngineOutcome,
    Game, GameState, MalformedRequest,
};
use std::collections::HashMap;

fn c(x: u32, y: u32) -> Coord {
    Coord { x, y }
}

fn snake(id: &str, body: Vec<Coord>) -> Battlesnake {
    Battlesnake {
        id: id.to_string(),
        name: format!("snake {}", id),
        health: 90,
        head: body[0],
        length: body.len() as u32,
        body,
        latency: "12".to_string(),
        shout: None,
    }
}

fn state(width: u32, height: u32, you: Battlesnake, others: Vec<Battlesnake>) -> GameState {
    let mut ruleset = HashMap::new();
    ruleset.insert("name".to_string(), serde_json::Value::String("standard".to_string()));
    let mut snakes = vec![you.clone()];
    snakes.extend(others);
    GameState {
        game: Game { id: "g1".to_string(), ruleset, timeout: 500 },
        turn: 3,
        board: Board { height, width, food: vec![c(0, 0)], snakes, hazards: vec![] },
        you,
    }
}

fn scenario_a() -> GameState {
    state(11, 11, snake("me", vec![c(5, 5), c(5, 6)]), vec![])
}

fn replied(chosen: &str, shout: Option<&str>) -> EngineOutcome {
    EngineOutcome::Replied { chosen: chosen.to_string(), shout: shout.map(|s| s.to_string()) }
}

#[test]
fn fallback_does_not_reverse_into_neck() {
    let st = scenario_a();
    let d = fallback_move(&st.board, &st.you);
    assert_ne!(d, Direction::Up);
    assert!(matches!(d, Direction::Down | Direction::Left | Direction::Right));
    assert_eq!(d, Direction::Right);
}

#[test]
fn timed_out_engine_gets_fallback() {
    let st = scenario_a();
    let r = handle_move(&st, &EngineOutcome::TimedOut);
    assert_eq!(status_of(&r), 200);
    let m = r.unwrap();
    assert_eq!(m.direction, Direction::Right);
    assert_eq!(m.move_name(), "right");
    assert!(m.shout.is_none());
}

#[test]
fn failed_engine_gets_fallback() {
    let st = state(11, 11, snake("me", vec![c(5, 5), c(5, 4)]), vec![]);
    let r = handle_move(&st, &EngineOutcome::Failed);
    assert_eq!(status_of(&r), 200);
    assert_eq!(r.unwrap().direction, Direction::Up);
}

#[test]
fn fallback_order_is_up_right_down_left() {
    // Top right corner, neck below: up and right leave the board, down is the neck.
    let st = state(11, 11, snake("me", vec![c(10, 10), c(10, 9)]), vec![]);
    assert_eq!(fallback_move(&st.board, &st.you), Direction::Left);
    // Top right corner, neck to the left: down is the first safe move.
    let st = state(11, 11, snake("me", vec![c(10, 10), c(9, 10)]), vec![]);
    assert_eq!(fallback_move(&st.board, &st.you), Direction::Down);
}

#[test]
fn fallback_without_safe_move_is_up() {
    let st = state(1, 1, snake("me", vec![c(0, 0)]), vec![]);
    assert_eq!(fallback_move(&st.board, &st.you), Direction::Up);
}

#[test]
fn fallback_never_reverses_on_small_board() {
    let heads = [c(0, 0), c(1, 0), c(0, 1), c(1, 1)];
    for h in heads {
        let necks = [c(h.x ^ 1, h.y), c(h.x, h.y ^ 1)];
        for n in necks {
            let st = state(2, 2, snake("me", vec![h, n]), vec![]);
            let d = fallback_move(&st.board, &st.you);
            let (tx, ty) = match d {
                Direction::Up => (h.x as i64, h.y as i64 + 1),
                Direction::Down => (h.x as i64, h.y as i64 - 1),
                Direction::Left => (h.x as i64 - 1, h.y as i64),
                Direction::Right => (h.x as i64 + 1, h.y as i64),
            };
            assert!((tx, ty) != (n.x as i64, n.y as i64));
            assert!(tx >= 0 && tx < 2 && ty >= 0 && ty < 2);
        }
    }
}

#[test]
fn engine_move_passes_through() {
    let st = scenario_a();
    let r = handle_move(&st, &replied("up", Some("hi"))).unwrap();
    assert_eq!(r.direction, Direction::Up);
    assert_eq!(r.shout.as_deref(), Some("hi"));
    for (name, d) in [
        ("down", Direction::Down),
        ("left", Direction::Left),
        ("right", Direction::Right),
    ] {
        let r = resolve_move(&st, &replied(name, None));
        assert_eq!(r.direction, d);
        assert!(r.shout.is_none());
    }
}

#[test]
fn unknown_engine_move_falls_back() {
    let st = scenario_a();
    for name in ["north", "UP", "", "up "] {
        let r = resolve_move(&st, &replied(name, Some("ignored")));
        assert_eq!(r.direction, Direction::Right);
        assert!(r.shout.is_none());
    }
}

#[test]
fn move_names_are_the_four() {
    let names: Vec<String> = [Direction::Up, Direction::Down, Direction::Left, Direction::Right]
        .iter()
        .map(|d| d.as_str())
        .collect();
    assert_eq!(names, vec!["up", "down", "left", "right"]);
    for n in &names {
        assert_eq!(Direction::parse(n).unwrap().as_str(), *n);
    }
    assert_eq!(Direction::parse("sideways"), None);
}

#[test]
fn long_shout_is_truncated() {
    let long = "a".repeat(300);
    assert_eq!(truncate_shout(&long), "a".repeat(256));
    let wide = "é".repeat(257);
    assert_eq!(truncate_shout(&wide).chars().count(), 256);
    assert_eq!(truncate_shout("short"), "short");
    let st = scenario_a();
    let r = resolve_move(&st, &replied("left", Some(&long)));
    assert_eq!(r.shout.unwrap().len(), 256);
}

#[test]
fn budget_keeps_a_margin() {
    assert_eq!(move_budget_ms(500), 450);
    assert_eq!(move_budget_ms(51), 1);
    assert_eq!(move_budget_ms(50), 0);
    assert_eq!(move_budget_ms(0), 0);
}

#[test]
fn malformed_states_are_refused() {
    let mut bad_head = scenario_a();
    bad_head.you.head = c(1, 1);
    let mut out_of_bounds = scenario_a();
    out_of_bounds.board.food.push(c(11, 0));
    let mut hazard_out = scenario_a();
    hazard_out.board.hazards.push(c(0, 11));
    let mut unknown = scenario_a();
    unknown.you.id = "stranger".to_string();
    let mut sick = scenario_a();
    sick.you.health = 101;
    let mut wrong_length = scenario_a();
    wrong_length.you.length = 3;
    let mut empty_body = scenario_a();
    empty_body.you.body.clear();
    let mut no_width = scenario_a();
    no_width.board.width = 0;
    let mut bad_other = scenario_a();
    bad_other.board.snakes.push(snake("other", vec![c(20, 20)]));
    let mut shared_id = scenario_a();
    shared_id.board.snakes.push(snake("other", vec![c(1, 1)]));
    shared_id.board.snakes.push(snake("other", vec![c(2, 2)]));
    let mut twin_of_you = scenario_a();
    twin_of_you.board.snakes.push(snake("me", vec![c(3, 3)]));
    for st in [
        bad_head,
        out_of_bounds,
        hazard_out,
        unknown,
        sick,
        wrong_length,
        empty_body,
        no_width,
        bad_other,
        shared_id,
        twin_of_you,
    ] {
        let r = handle_move(&st, &EngineOutcome::TimedOut);
        assert!(matches!(r, Err(MalformedRequest)));
        assert_eq!(status_of(&r), 400);
        assert_eq!(handle_start(&st), 400);
        assert_eq!(handle_end(&st), 400);
    }
}

#[test]
fn server_keeps_serving_after_malformed_request() {
    let mut bad = scenario_a();
    bad.board.height = 0;
    assert_eq!(status_of(&handle_move(&bad, &EngineOutcome::Failed)), 400);
    let good = scenario_a();
    assert_eq!(status_of(&handle_move(&good, &EngineOutcome::Failed)), 200);
}

#[test]
fn start_and_end_acknowledge() {
    let st = scenario_a();
    assert_eq!(handle_start(&st), 200);
    assert_eq!(handle_end(&st), 200);
    let mut crowded = scenario_a();
    crowded.board.snakes.push(snake("other", vec![c(1, 1)]));
    crowded.board.snakes.push(snake("third", vec![c(2, 2)]));
    assert_eq!(handle_start(&crowded), 200);
    assert_eq!(handle_end(&crowded), 200);
}

#[test]
fn descriptor_has_required_keys() {
    let d = info();
    let keys: Vec<String> = d.entries().into_iter().map(|(k, _)| k).collect();
    assert_eq!(keys, vec!["apiversion", "author", "color", "head", "tail", "version"]);
    assert_eq!(d.apiversion, "1");
    assert_eq!(d.color, "#888888");
    assert_eq!(d.entries()[4].1, "default");
}

#[test]
fn cautious_move_avoids_bodies() {
    // Up is the neck, right is another snake: down is taken.
    let other = snake("other", vec![c(6, 5), c(7, 5)]);
    let st = state(11, 11, snake("me", vec![c(5, 5), c(5, 6)]), vec![other]);
    assert_eq!(cautious_move(&st), Some(Direction::Down));
    let st = scenario_a();
    assert_eq!(cautious_move(&st), Some(Direction::Right));
    let boxed = state(1, 2, snake("me", vec![c(0, 0), c(0, 1)]), vec![]);
    assert_eq!(cautious_move(&boxed), None);
}
