//! Grid geometry: board configuration, wrap-around coordinate
//! arithmetic and occupancy tests.

use vstd::prelude::*;

verus! {

/// Immutable board configuration: the playing field is `width` by
/// `height` cells. Fixed for the lifetime of a game.
#[derive(Clone, Copy, Debug)]
pub struct Board {
    pub width: u32,
    pub height: u32,
}

impl Board {
    /// A usable board: at least 2 cells on each axis, so that a single
    /// step never lands back on the cell it left, and small enough that
    /// cell counts and coordinates fit comfortably in the integer types.
    pub open spec fn wf(self) -> bool {
        &&& 2 <= self.width <= 0x8000
        &&& 2 <= self.height <= 0x8000
    }
}

/// What `wrap` computes: -1 goes to the far edge, the length goes to 0,
/// anything already inside [0, len) is unchanged.
pub open spec fn wrap_spec(c: int, len: int) -> int {
    if c < 0 {
        len - 1
    } else if c >= len {
        0
    } else {
        c
    }
}

/// Wrap-around coordinate arithmetic on one axis. A single step moves a
/// coordinate by at most one cell, so the input is at most one outside
/// [0, len).
pub fn wrap(c: i32, len: i32) -> (r: i32)
    requires
        1 <= len,
        -1 <= c <= len,
    ensures
        r == wrap_spec(c as int, len as int),
        c == -1 ==> r == len - 1,
        c == len ==> r == 0,
        0 <= c < len ==> r == c,
{
    if c < 0 {
        len - 1
    } else if c >= len {
        0
    } else {
        c
    }
}

/// The cell (x, y) lies on the board.
pub open spec fn in_grid(x: int, y: int, board: Board) -> bool {
    &&& 0 <= x < board.width
    &&& 0 <= y < board.height
}

/// The cell (x, y) is occupied by some segment of `body`.
pub open spec fn hits_body(body: Seq<(i32, i32)>, x: int, y: int) -> bool {
    exists|i: int| 0 <= i < body.len() && body[i].0 == x && body[i].1 == y
}

/// No two segments of `body` occupy the same cell.
pub open spec fn distinct_cells(body: Seq<(i32, i32)>) -> bool {
    forall|i: int, j: int| 0 <= i < j < body.len() ==> body[i] != body[j]
}

/// Every segment of `body` lies on the board.
pub open spec fn body_in_grid(body: Seq<(i32, i32)>, board: Board) -> bool {
    forall|i: int| 0 <= i < body.len() ==> in_grid(
        #[trigger] body[i].0 as int,
        body[i].1 as int,
        board,
    )
}

/// Linear scan for the cell (x, y) among the body segments.
pub fn body_contains(body: &Vec<(i32, i32)>, x: i32, y: i32) -> (r: bool)
    ensures
        r == hits_body(body@, x as int, y as int),
{
    let mut i: usize = 0;
    while i < body.len()
        invariant
            i <= body@.len(),
            forall|k: int| 0 <= k < i ==> !(#[trigger] body@[k].0 == x && body@[k].1 == y),
        decreases body@.len() - i,
    {
        if body[i].0 == x && body[i].1 == y {
            return true;
        }
        i = i + 1;
    }
    false
}

/// The cell (x, y) kills the snake: it is off the board — unreachable in
/// normal play, since `wrap` is applied first, kept as a safety net — or
/// already occupied by a body segment.
pub fn game_over(x: i32, y: i32, body: &Vec<(i32, i32)>, board: &Board) -> (r: bool)
    requires
        board.wf(),
    ensures
        r == (!in_grid(x as int, y as int, *board) || hits_body(body@, x as int, y as int)),
{
    x < 0 || x >= board.width as i32 || y < 0 || y >= board.height as i32 || body_contains(
        body,
        x,
        y,
    )
}

/// The set of all cells of the board.
pub open spec fn grid_set(board: Board) -> Set<(i32, i32)> {
    Set::new(|c: (i32, i32)| in_grid(c.0 as int, c.1 as int, board))
}

/// The cells of the full columns 0..w of a grid of height `h`, together
/// with the first `k` cells of column `w`. Stepping stone for counting
/// the cells of a whole grid.
spec fn grid_prefix(w: int, h: int, k: int) -> Set<(i32, i32)> {
    Set::new(
        |c: (i32, i32)| (0 <= c.0 < w && 0 <= c.1 < h) || (c.0 == w && 0 <= c.1 < k),
    )
}

proof fn lemma_grid_prefix_card(w: int, h: int, k: int)
    requires
        0 <= w <= 0x8000,
        0 <= h <= 0x8000,
        0 <= k <= h,
    ensures
        grid_prefix(w, h, k).finite(),
        grid_prefix(w, h, k).len() == w * h + k,
    decreases w, k,
{
    broadcast use vstd::set::group_set_axioms;

    if k == 0 {
        if w == 0 {
            assert(grid_prefix(0, h, 0) =~= Set::<(i32, i32)>::empty());
        } else {
            lemma_grid_prefix_card(w - 1, h, h);
            assert(grid_prefix(w - 1, h, h) =~= grid_prefix(w, h, 0));
            assert((w - 1) * h + h == w * h) by (nonlinear_arith);
        }
    } else {
        lemma_grid_prefix_card(w, h, k - 1);
        let cell = (w as i32, (k - 1) as i32);
        assert(!grid_prefix(w, h, k - 1).contains(cell));
        assert(grid_prefix(w, h, k - 1).insert(cell) =~= grid_prefix(w, h, k));
    }
}

/// The board has exactly `width * height` cells.
pub proof fn lemma_grid_set_card(board: Board)
    requires
        board.wf(),
    ensures
        grid_set(board).finite(),
        grid_set(board).len() == board.width * board.height,
{
    lemma_grid_prefix_card(board.width as int, board.height as int, 0);
    assert(grid_prefix(board.width as int, board.height as int, 0) =~= grid_set(board));
}

/// Linear scan: every body segment lies on the board.
pub fn body_on_board(body: &Vec<(i32, i32)>, board: &Board) -> (r: bool)
    requires
        board.wf(),
    ensures
        r == body_in_grid(body@, *board),
{
    let mut i: usize = 0;
    while i < body.len()
        invariant
            board.wf(),
            i <= body@.len(),
            forall|k: int|
                0 <= k < i ==> in_grid(#[trigger] body@[k].0 as int, body@[k].1 as int, *board),
        decreases body@.len() - i,
    {
        let (cx, cy) = body[i];
        if cx < 0 || cx >= board.width as i32 || cy < 0 || cy >= board.height as i32 {
            return false;
        }
        i = i + 1;
    }
    true
}

/// Quadratic scan: no two body segments occupy the same cell.
pub fn cells_distinct(body: &Vec<(i32, i32)>) -> (r: bool)
    ensures
        r == distinct_cells(body@),
{
    let n = body.len();
    let mut i: usize = 0;
    while i < n
        invariant
            n == body@.len(),
            i <= n,
            forall|p: int, q: int| 0 <= p < q < n && p < i ==> body@[p] != body@[q],
        decreases n - i,
    {
        let mut j: usize = i + 1;
        while j < n
            invariant
                n == body@.len(),
                i < n,
                i < j <= n,
                forall|p: int, q: int| 0 <= p < q < n && p < i ==> body@[p] != body@[q],
                forall|q: int| i < q < j ==> body@[i as int] != body@[q],
            decreases n - j,
        {
            if body[i].0 == body[j].0 && body[i].1 == body[j].1 {
                return false;
            }
            j = j + 1;
        }
        i = i + 1;
    }
    true
}

} // verus!
