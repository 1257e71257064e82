//! Fruit placement: rejection-sampling a random free cell, with an
//! exhaustive sweep as a last resort so that placement always ends.

use vstd::prelude::*;
use crate::grid::{Board, body_contains, grid_set, hits_body, in_grid, lemma_grid_set_card};

verus! {

/// How many random draws are tried before falling back to a sweep.
pub const SAMPLE_ATTEMPTS: u32 = 131072;

/// Relies on macroquad::rand::rand (quad_rand's global generator): a
/// pseudo-random `u32`. Nothing is promised of its value; every caller
/// must cope with any result.
#[verifier::external_body]
fn rand_u32() -> u32 {
    macroquad::rand::rand()
}

/// Picks a cell that is neither the head nor any body segment, by
/// drawing uniformly random cells until one is free. The board must
/// have at least one free cell; with one, a deterministic sweep finds
/// it even if the random draws are endlessly unlucky.
pub fn new_fruit(head: (i32, i32), body: &Vec<(i32, i32)>, board: &Board) -> (r: (i32, i32))
    requires
        board.wf(),
        body@.len() + 1 < board.width * board.height,
    ensures
        in_grid(r.0 as int, r.1 as int, *board),
        !(r.0 == head.0 && r.1 == head.1),
        !hits_body(body@, r.0 as int, r.1 as int),
{
    let mut attempts: u32 = 0;
    while attempts < SAMPLE_ATTEMPTS
        invariant
            board.wf(),
        decreases SAMPLE_ATTEMPTS - attempts,
    {
        let new_x = (rand_u32() % board.width) as i32;
        let new_y = (rand_u32() % board.height) as i32;
        if !(new_x == head.0 && new_y == head.1) && !body_contains(body, new_x, new_y) {
            return (new_x, new_y);
        }
        attempts = attempts + 1;
    }
    // Sweep every cell; the free one the requires promises is found.
    let mut sx: u32 = 0;
    while sx < board.width
        invariant
            board.wf(),
            sx <= board.width,
            forall|cx: int, cy: int|
                0 <= cx < sx && 0 <= cy < board.height ==> ((cx == head.0 && cy == head.1)
                    || hits_body(body@, cx, cy)),
        decreases board.width - sx,
    {
        let mut sy: u32 = 0;
        while sy < board.height
            invariant
                board.wf(),
                sx < board.width,
                sy <= board.height,
                forall|cx: int, cy: int|
                    0 <= cx < sx && 0 <= cy < board.height ==> ((cx == head.0 && cy == head.1)
                        || hits_body(body@, cx, cy)),
                forall|cy: int|
                    0 <= cy < sy ==> ((sx == head.0 && cy == head.1) || hits_body(
                        body@,
                        sx as int,
                        cy,
                    )),
            decreases board.height - sy,
        {
            let cx = sx as i32;
            let cy = sy as i32;
            if !(cx == head.0 && cy == head.1) && !body_contains(body, cx, cy) {
                return (cx, cy);
            }
            sy = sy + 1;
        }
        sx = sx + 1;
    }
    // Every cell turned out occupied: impossible, since head and body
    // together cover fewer cells than the board has.
    proof {
        broadcast use vstd::set::group_set_axioms;
        broadcast use vstd::seq_lib::seq_to_set_is_finite;

        let occupied = body@.to_set().insert(head);
        assert forall|c: (i32, i32)| grid_set(*board).contains(c) implies occupied.contains(
            c,
        ) by {
            assert((c.0 == head.0 && c.1 == head.1) || hits_body(body@, c.0 as int, c.1 as int));
            if c.0 == head.0 && c.1 == head.1 {
                assert(c == head);
            } else {
                let i = choose|i: int|
                    0 <= i < body@.len() && body@[i].0 == c.0 as int && body@[i].1 == c.1 as int;
                assert(body@[i] == c);
                assert(body@.contains(c));
            }
        }
        lemma_grid_set_card(*board);
        body@.lemma_cardinality_of_set();
        vstd::set_lib::lemma_len_subset(grid_set(*board), occupied);
        assert(false);
    }
    (0, 0)
}

} // verus!
