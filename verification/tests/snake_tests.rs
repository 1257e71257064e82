use snake::fruit::new_fruit;
use snake::grid::{body_contains, cells_distinct, game_over, wrap, Board};
use snake::player::{
    next_move_from_input, reset_player_state, resolve_direction, update_state, PlayerState,
};
use snake::render::{render_cells, CellKind};

fn board_15() -> Board {
    Board {
        width: 15,
        height: 15,
    }
}

fn state_on_row(head: (i32, i32), body: Vec<(i32, i32)>, fruit: (i32, i32)) -> PlayerState {
    PlayerState {
        x: head.0,
        y: head.1,
        direction: 2,
        next_move: 2,
        body,
        fruit,
        killed: false,
        score: 0,
    }
}

#[test]
fn wrap_low_edge() {
    assert_eq!(wrap(-1, 15), 14);
    assert_eq!(wrap(-1, 2), 1);
}

#[test]
fn wrap_high_edge() {
    assert_eq!(wrap(15, 15), 0);
    assert_eq!(wrap(2, 2), 0);
}

#[test]
fn wrap_identity_inside() {
    assert_eq!(wrap(0, 15), 0);
    assert_eq!(wrap(7, 15), 7);
    assert_eq!(wrap(14, 15), 14);
}

#[test]
fn simple_move_right() {
    let board = board_15();
    let mut s = state_on_row((3, 1), vec![(0, 1), (1, 1), (2, 1)], (9, 9));
    update_state(&mut s, &board);
    assert_eq!((s.x, s.y), (4, 1));
    assert_eq!(s.body, vec![(1, 1), (2, 1), (3, 1)]);
    assert!(!s.killed);
    assert_eq!(s.score, 0);
    assert_eq!(s.fruit, (9, 9));
    assert_eq!(s.direction, 2);
}

#[test]
fn head_wraps_right_edge() {
    let board = board_15();
    let mut s = state_on_row((14, 1), vec![(11, 1), (12, 1), (13, 1)], (9, 9));
    update_state(&mut s, &board);
    assert_eq!((s.x, s.y), (0, 1));
    assert!(!s.killed);
}

#[test]
fn non_eating_ticks_keep_length() {
    let board = board_15();
    let mut s = state_on_row((3, 1), vec![(0, 1), (1, 1), (2, 1)], (9, 9));
    for _ in 0..8 {
        update_state(&mut s, &board);
        assert_eq!(s.body.len(), 3);
        assert_eq!(s.score, 0);
    }
}

#[test]
fn eating_grows_body_and_score() {
    let board = board_15();
    let mut s = state_on_row((3, 1), vec![(0, 1), (1, 1), (2, 1)], (4, 1));
    update_state(&mut s, &board);
    assert!(!s.killed);
    assert_eq!((s.x, s.y), (4, 1));
    assert_eq!(s.body, vec![(0, 1), (1, 1), (2, 1), (3, 1)]);
    assert_eq!(s.score, 1);
    // The fresh fruit is on the board and off the snake.
    assert!(s.fruit.0 >= 0 && s.fruit.0 < 15 && s.fruit.1 >= 0 && s.fruit.1 < 15);
    assert_ne!(s.fruit, (s.x, s.y));
    assert!(!s.body.contains(&s.fruit));
}

#[test]
fn self_collision_kills_and_freezes() {
    let board = board_15();
    // The snake curls back: one step left from (2, 1) lands on (1, 1),
    // a cell the body still occupies (and not the vacating tail).
    let mut s = PlayerState {
        x: 2,
        y: 1,
        direction: 1,
        next_move: 1,
        body: vec![(3, 1), (3, 2), (2, 2), (1, 2), (1, 1)],
        fruit: (9, 9),
        killed: false,
        score: 0,
    };
    update_state(&mut s, &board);
    assert!(s.killed);
    assert_eq!((s.x, s.y), (2, 1));
    assert_eq!(s.body, vec![(3, 1), (3, 2), (2, 2), (1, 2), (1, 1)]);
    assert_eq!(s.fruit, (9, 9));
    assert_eq!(s.score, 0);
    // Dead is terminal: further ticks change nothing at all.
    for _ in 0..3 {
        update_state(&mut s, &board);
        assert!(s.killed);
        assert_eq!((s.x, s.y), (2, 1));
        assert_eq!(s.body, vec![(3, 1), (3, 2), (2, 2), (1, 2), (1, 1)]);
        assert_eq!(s.fruit, (9, 9));
        assert_eq!(s.score, 0);
        assert_eq!(s.direction, 1);
        assert_eq!(s.next_move, 1);
    }
}

#[test]
fn reversal_is_ignored_for_the_tick() {
    let board = board_15();
    let mut s = state_on_row((3, 1), vec![(0, 1), (1, 1), (2, 1)], (9, 9));
    s.next_move = 1; // Left, the exact reversal of Right.
    update_state(&mut s, &board);
    assert_eq!(s.direction, 2);
    assert_eq!((s.x, s.y), (4, 1));
}

#[test]
fn resolve_direction_blocks_reversals_only() {
    assert_eq!(resolve_direction(2, 1), 2);
    assert_eq!(resolve_direction(1, 2), 1);
    assert_eq!(resolve_direction(3, 4), 3);
    assert_eq!(resolve_direction(4, 3), 4);
    assert_eq!(resolve_direction(2, 3), 3);
    assert_eq!(resolve_direction(2, 4), 4);
    assert_eq!(resolve_direction(1, 3), 3);
    assert_eq!(resolve_direction(3, 1), 1);
    assert_eq!(resolve_direction(2, 2), 2);
}

#[test]
fn input_priority_left_to_down() {
    assert_eq!(next_move_from_input(true, true, true, true, 2), 1);
    assert_eq!(next_move_from_input(false, true, true, true, 2), 2);
    assert_eq!(next_move_from_input(false, false, true, true, 2), 3);
    assert_eq!(next_move_from_input(false, false, false, true, 2), 4);
    assert_eq!(next_move_from_input(false, false, false, false, 3), 3);
}

#[test]
fn reset_builds_the_starting_snake() {
    let board = board_15();
    let s = reset_player_state(&board);
    assert_eq!((s.x, s.y), (3, 1));
    assert_eq!(s.direction, 2);
    assert_eq!(s.next_move, 2);
    assert_eq!(s.body, vec![(0, 1), (1, 1), (2, 1)]);
    assert_eq!(s.score, 0);
    assert!(!s.killed);
    assert!(s.fruit.0 >= 0 && s.fruit.0 < 15 && s.fruit.1 >= 0 && s.fruit.1 < 15);
    assert_ne!(s.fruit, (3, 1));
    assert!(!s.body.contains(&s.fruit));
}

#[test]
fn fruit_lands_on_the_only_free_cell() {
    let board = Board {
        width: 2,
        height: 2,
    };
    let body = vec![(0, 1), (1, 0)];
    let fruit = new_fruit((0, 0), &body, &board);
    assert_eq!(fruit, (1, 1));
}

#[test]
fn fruit_avoids_head_and_body() {
    let board = board_15();
    let body = vec![(0, 1), (1, 1), (2, 1)];
    for _ in 0..50 {
        let fruit = new_fruit((3, 1), &body, &board);
        assert!(fruit.0 >= 0 && fruit.0 < 15 && fruit.1 >= 0 && fruit.1 < 15);
        assert_ne!(fruit, (3, 1));
        assert!(!body.contains(&fruit));
    }
}

#[test]
fn game_over_checks_bounds_and_body() {
    let board = board_15();
    let body = vec![(0, 1), (1, 1), (2, 1)];
    assert!(game_over(-1, 0, &body, &board));
    assert!(game_over(15, 0, &body, &board));
    assert!(game_over(0, -1, &body, &board));
    assert!(game_over(0, 15, &body, &board));
    assert!(game_over(1, 1, &body, &board));
    assert!(!game_over(5, 5, &body, &board));
}

#[test]
fn occupancy_scans() {
    let body = vec![(0, 1), (1, 1), (2, 1)];
    assert!(body_contains(&body, 1, 1));
    assert!(!body_contains(&body, 1, 2));
    assert!(cells_distinct(&body));
    assert!(!cells_distinct(&vec![(0, 1), (2, 2), (0, 1)]));
}

#[test]
fn well_formedness_checks() {
    let board = board_15();
    let s = state_on_row((3, 1), vec![(0, 1), (1, 1), (2, 1)], (9, 9));
    assert!(s.is_wf(&board));
    assert!(s.can_tick(&board));
    let mut bad = state_on_row((3, 1), vec![(0, 1), (1, 1), (2, 1)], (9, 9));
    bad.fruit = (3, 1); // fruit on the head of a live snake
    assert!(!bad.is_wf(&board));
    let mut off = state_on_row((3, 1), vec![(0, 1), (1, 1), (2, 1)], (9, 9));
    off.x = 15;
    assert!(!off.is_wf(&board));
}

#[test]
fn render_payload_lists_body_head_fruit() {
    let s = state_on_row((3, 1), vec![(0, 1), (1, 1), (2, 1)], (9, 9));
    let cells = render_cells(&s);
    assert_eq!(cells.len(), 5);
    assert_eq!(cells[0], ((0, 1), CellKind::Body));
    assert_eq!(cells[1], ((1, 1), CellKind::Body));
    assert_eq!(cells[2], ((2, 1), CellKind::Body));
    assert_eq!(cells[3], ((3, 1), CellKind::Head));
    assert_eq!(cells[4], ((9, 9), CellKind::Fruit));
}
