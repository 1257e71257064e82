//! The render payload: which cells a frame shows, and as what. Turning
//! cells into colored screen rectangles is the renderer's business.

use vstd::prelude::*;
use crate::player::PlayerState;

verus! {

/// What a listed cell is drawn as.
#[derive(Clone, Copy, Debug, PartialEq, Eq, Structural)]
pub enum CellKind {
    Body,
    Head,
    Fruit,
}

/// The cells one frame shows: every body segment, then the head, then
/// the fruit, each tagged with what it is.
pub fn render_cells(state: &PlayerState) -> (r: Vec<((i32, i32), CellKind)>)
    ensures
        r@.len() == state.body@.len() + 2,
        forall|i: int|
            0 <= i < state.body@.len() ==> r@[i] == (#[trigger] state.body@[i], CellKind::Body),
        r@[state.body@.len() as int] == ((state.x, state.y), CellKind::Head),
        r@[state.body@.len() as int + 1] == (state.fruit, CellKind::Fruit),
{
    let mut r: Vec<((i32, i32), CellKind)> = Vec::new();
    let mut i: usize = 0;
    while i < state.body.len()
        invariant
            i <= state.body@.len(),
            r@.len() == i,
            forall|k: int|
                0 <= k < i ==> r@[k] == (#[trigger] state.body@[k], CellKind::Body),
        decreases state.body@.len() - i,
    {
        let cell = state.body[i];
        r.push((cell, CellKind::Body));
        i = i + 1;
    }
    r.push(((state.x, state.y), CellKind::Head));
    r.push((state.fruit, CellKind::Fruit));
    r
}

} // verus!
