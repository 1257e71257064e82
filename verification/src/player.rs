//! The player state machine: direction resolution and the per-tick
//! state update, with the invariants that hold of a live game.

use vstd::prelude::*;
use crate::fruit::new_fruit;
use crate::grid::{
    Board, body_contains, body_in_grid, body_on_board, cells_distinct, distinct_cells, game_over,
    hits_body, in_grid, wrap, wrap_spec,
};

verus! {

/// The whole mutable state of one game: head position, committed
/// direction, the direction asked for by input, the body from tail to
/// head-minus-one, the fruit cell, the dead flag and the score.
/// Directions are tagged 1 = Left, 2 = Right, 3 = Up, 4 = Down.
#[derive(Debug)]
pub struct PlayerState {
    pub x: i32,
    pub y: i32,
    pub direction: u8,
    pub next_move: u8,
    pub body: Vec<(i32, i32)>,
    pub fruit: (i32, i32),
    pub killed: bool,
    pub score: u32,
}

/// `a` is the exact 180-degree reversal of `b`.
pub open spec fn is_opposite(a: u8, b: u8) -> bool {
    ||| (a == 1 && b == 2)
    ||| (a == 2 && b == 1)
    ||| (a == 3 && b == 4)
    ||| (a == 4 && b == 3)
}

/// The direction committed for a tick: the requested direction, unless
/// it is the exact reversal of the current one, which is ignored.
pub open spec fn resolve_dir(current: u8, next: u8) -> u8 {
    if next == 1 {
        if current != 2 { 1u8 } else { current }
    } else if next == 2 {
        if current != 1 { 2u8 } else { current }
    } else if next == 3 {
        if current != 4 { 3u8 } else { current }
    } else {
        if current != 3 { 4u8 } else { current }
    }
}

/// One cell of movement in direction `d`, before wrapping.
pub open spec fn step_of(d: u8, x: int, y: int) -> (int, int) {
    if d == 1 {
        (x - 1, y)
    } else if d == 2 {
        (x + 1, y)
    } else if d == 3 {
        (x, y - 1)
    } else {
        (x, y + 1)
    }
}

/// The head cell a tick moves to: one step in the committed direction,
/// wrapped on each axis independently.
pub open spec fn next_head(s: PlayerState, board: Board) -> (int, int) {
    let p = step_of(resolve_dir(s.direction, s.next_move), s.x as int, s.y as int);
    (wrap_spec(p.0, board.width as int), wrap_spec(p.1, board.height as int))
}

/// The tick lands the head on the fruit.
pub open spec fn eats(s: PlayerState, board: Board) -> bool {
    next_head(s, board).0 == s.fruit.0 && next_head(s, board).1 == s.fruit.1
}

/// The tick lands the head on a cell the body occupies before this
/// tick's tail removal (the tail about to be vacated still counts).
pub open spec fn dies(s: PlayerState, board: Board) -> bool {
    hits_body(s.body@, next_head(s, board).0, next_head(s, board).1)
}

impl PlayerState {
    /// Well-formedness: the direction is one of the four tags, head,
    /// fruit and body lie on the board, no two body segments share a
    /// cell, the head is not a body segment, the score never exceeds
    /// the body length, and while alive the fruit is disjoint from the
    /// head and the body.
    pub open spec fn wf(self, board: Board) -> bool {
        &&& 1 <= self.direction <= 4
        &&& in_grid(self.x as int, self.y as int, board)
        &&& in_grid(self.fruit.0 as int, self.fruit.1 as int, board)
        &&& body_in_grid(self.body@, board)
        &&& distinct_cells(self.body@)
        &&& !hits_body(self.body@, self.x as int, self.y as int)
        &&& self.score <= self.body@.len()
        &&& (!self.killed ==> !(self.fruit.0 == self.x && self.fruit.1 == self.y))
        &&& (!self.killed ==> !hits_body(self.body@, self.fruit.0 as int, self.fruit.1 as int))
    }

    /// Runtime check of `wf`, for callers outside verified code.
    pub fn is_wf(&self, board: &Board) -> (r: bool)
        requires
            board.wf(),
        ensures
            r == self.wf(*board),
    {
        let dir_ok = 1 <= self.direction && self.direction <= 4;
        let head_ok = self.x >= 0 && self.x < board.width as i32 && self.y >= 0 && self.y
            < board.height as i32;
        let fruit_ok = self.fruit.0 >= 0 && self.fruit.0 < board.width as i32 && self.fruit.1 >= 0
            && self.fruit.1 < board.height as i32;
        let body_ok = body_on_board(&self.body, board) && cells_distinct(&self.body)
            && !body_contains(&self.body, self.x, self.y);
        let score_ok = (self.score as usize) <= self.body.len();
        let fruit_free = self.killed || (!(self.fruit.0 == self.x && self.fruit.1 == self.y)
            && !body_contains(&self.body, self.fruit.0, self.fruit.1));
        dir_ok && head_ok && fruit_ok && body_ok && score_ok && fruit_free
    }

    /// Runtime check that a tick may be taken: the state is well formed
    /// and the snake leaves at least two cells of the board free, so
    /// that a fruit eaten this tick can be placed again.
    pub fn can_tick(&self, board: &Board) -> (r: bool)
        requires
            board.wf(),
        ensures
            r == (self.wf(*board) && self.body@.len() + 2 < board.width * board.height),
    {
        proof {
            assert(4 <= board.width * board.height <= 0x40000000) by (nonlinear_arith)
                requires
                    2 <= board.width <= 0x8000,
                    2 <= board.height <= 0x8000,
            ;
        }
        let area = (board.width as u64) * (board.height as u64);
        self.is_wf(board) && (self.body.len() as u64) < area - 2
    }
}

/// Commit the direction for this tick, ignoring an exact reversal.
pub fn resolve_direction(current: u8, next: u8) -> (r: u8)
    ensures
        r == resolve_dir(current, next),
        1 <= current <= 4 ==> !is_opposite(r, current),
        1 <= current <= 4 ==> 1 <= r <= 4,
{
    match next {
        1 => if current != 2 { 1 } else { current },
        2 => if current != 1 { 2 } else { current },
        3 => if current != 4 { 3 } else { current },
        _ => if current != 3 { 4 } else { current },
    }
}

/// Per-frame input capture: the four directional keys checked with a
/// fixed priority (Left, Right, Up, Down); with none held, the previous
/// request is retained.
pub fn next_move_from_input(left: bool, right: bool, up: bool, down: bool, prior: u8) -> (r: u8)
    ensures
        r == (if left { 1u8 } else if right { 2u8 } else if up { 3u8 } else if down { 4u8 } else { prior }),
{
    if left {
        1
    } else if right {
        2
    } else if up {
        3
    } else if down {
        4
    } else {
        prior
    }
}

/// One discrete gameplay tick. A dead snake is left exactly as it is.
/// A live one commits a direction (never the reversal of the prior
/// one), moves one cell with wrap-around, and dies if the new head
/// hits the body as it stood before the move; otherwise the old head
/// joins the body, and either the tail cell is dropped (a pure
/// translation, length kept) or — on eating the fruit — nothing is
/// dropped, the score rises by one and a fresh fruit is placed off the
/// snake.
pub fn update_state(state: &mut PlayerState, board: &Board)
    requires
        old(state).wf(*board),
        board.wf(),
        old(state).body@.len() + 2 < board.width * board.height,
    ensures
        final(state).wf(*board),
        old(state).killed ==> *final(state) == *old(state),
        !old(state).killed ==> final(state).direction == resolve_dir(
            old(state).direction,
            old(state).next_move,
        ),
        !old(state).killed ==> !is_opposite(final(state).direction, old(state).direction),
        !old(state).killed ==> final(state).next_move == old(state).next_move,
        !old(state).killed ==> final(state).killed == dies(*old(state), *board),
        !old(state).killed && dies(*old(state), *board) ==> final(state).x == old(state).x
            && final(state).y == old(state).y && final(state).body@ == old(state).body@
            && final(state).fruit == old(state).fruit && final(state).score == old(
            state,
        ).score,
        !old(state).killed && !dies(*old(state), *board) ==> final(state).x == next_head(
            *old(state),
            *board,
        ).0 && final(state).y == next_head(*old(state), *board).1,
        !old(state).killed && !dies(*old(state), *board) && eats(*old(state), *board)
            ==> final(state).body@ == old(state).body@.push((old(state).x, old(state).y))
            && final(state).body@.len() == old(state).body@.len() + 1 && final(state).score
            == old(state).score + 1,
        !old(state).killed && !dies(*old(state), *board) && !eats(*old(state), *board)
            ==> final(state).body@ == old(state).body@.push((old(state).x, old(state).y)).remove(
            0,
        ) && final(state).body@.len() == old(state).body@.len() && final(state).score == old(
            state,
        ).score && final(state).fruit == old(state).fruit,
{
    if state.killed {
        return;
    }
    let dir = resolve_direction(state.direction, state.next_move);
    state.direction = dir;

    let mut new_x: i32 = state.x;
    let mut new_y: i32 = state.y;
    match dir {
        1 => new_x = new_x - 1,
        2 => new_x = new_x + 1,
        3 => new_y = new_y - 1,
        _ => new_y = new_y + 1,
    }
    new_x = wrap(new_x, board.width as i32);
    new_y = wrap(new_y, board.height as i32);

    let eaten = new_x == state.fruit.0 && new_y == state.fruit.1;

    let killed_now = game_over(new_x, new_y, &state.body, board);
    state.killed = killed_now;

    if !killed_now {
        proof {
            assert(!(new_x == old(state).x && new_y == old(state).y));
        }
        let old_head = (state.x, state.y);
        state.body.push(old_head);
        if !eaten {
            state.body.remove(0);
        } else {
            proof {
                assert(board.width * board.height <= 0x40000000) by (nonlinear_arith)
                    requires
                        2 <= board.width <= 0x8000,
                        2 <= board.height <= 0x8000,
                ;
            }
            state.score = state.score + 1;
            let f = new_fruit((new_x, new_y), &state.body, board);
            state.fruit = f;
        }
        state.x = new_x;
        state.y = new_y;
    }
}

/// Fresh game state: a three-segment snake on the second row heading
/// Right, score zero, and a fruit placed on a free cell.
pub fn reset_player_state(board: &Board) -> (s: PlayerState)
    requires
        board.wf(),
        board.width >= 4,
    ensures
        s.wf(*board),
        s.x == 3 && s.y == 1,
        s.direction == 2 && s.next_move == 2,
        s.body@ == seq![(0i32, 1i32), (1i32, 1i32), (2i32, 1i32)],
        s.score == 0,
        !s.killed,
{
    let mut body: Vec<(i32, i32)> = Vec::new();
    body.push((0, 1));
    body.push((1, 1));
    body.push((2, 1));
    proof {
        assert(body@ =~= seq![(0i32, 1i32), (1i32, 1i32), (2i32, 1i32)]);
        assert(4 < board.width * board.height) by (nonlinear_arith)
            requires
                board.width >= 4,
                board.height >= 2,
        ;
    }
    let fruit = new_fruit((3, 1), &body, board);
    PlayerState {
        x: 3,
        y: 1,
        direction: 2,
        next_move: 2,
        body,
        fruit,
        killed: false,
        score: 0,
    }
}

} // verus!
