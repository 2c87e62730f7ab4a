//! The mathematical model of a Life board and the laws that hold of it.

use vstd::arithmetic::div_mod::lemma_fundamental_div_mod_converse;
use vstd::prelude::*;

verus! {

/// Brings a coordinate that lies at most one period outside `0 .. n` back
/// into that range: `-1` becomes `n - 1` and `n` becomes `0`.
pub open spec fn wrap(i: int, n: int) -> int {
    (i + n) % n
}

/// What one cell adds to a count of live cells.
pub open spec fn unit(alive: bool) -> nat {
    if alive {
        1
    } else {
        0
    }
}

/// The rule of Life: a live cell stays alive with two or three live
/// neighbours, a dead cell comes alive with exactly three.
pub open spec fn survives(alive: bool, live_neighbors: nat) -> bool {
    if alive {
        live_neighbors == 2 || live_neighbors == 3
    } else {
        live_neighbors == 3
    }
}

/// The value of a colour channel that shows one cell.
pub open spec fn channel(alive: bool) -> u8 {
    if alive {
        255
    } else {
        0
    }
}

/// A board: `width * height` cells stored row by row, on a torus.
///
/// With `subpixels` set, three consecutive cells of a row make up one
/// displayed pixel, so `width` is three times the displayed width.
#[verifier::ext_equal]
pub struct Board {
    pub cells: Seq<bool>,
    pub width: nat,
    pub height: nat,
    pub subpixels: bool,
}

impl Board {
    /// The shape is not empty, the cells fill it exactly, and in sub-pixel
    /// mode every row splits into whole pixels.
    pub open spec fn wf(self) -> bool {
        &&& self.width > 0
        &&& self.height > 0
        &&& self.cells.len() == self.width * self.height
        &&& self.subpixels ==> self.width % 3 == 0
    }

    /// Two boards of the same shape differ in their cells at most.
    pub open spec fn same_shape(self, other: Board) -> bool {
        &&& self.width == other.width
        &&& self.height == other.height
        &&& self.subpixels == other.subpixels
    }

    /// The number of cells stored for a displayed row of `display_width`
    /// pixels: three for each pixel in sub-pixel mode, one otherwise.
    pub open spec fn storage_width(subpixels: bool, display_width: nat) -> nat {
        if subpixels {
            3 * display_width
        } else {
            display_width
        }
    }

    /// The board of the given displayed size whose cells are all dead.
    pub open spec fn dead(subpixels: bool, display_width: nat, height: nat) -> Board {
        let width = Self::storage_width(subpixels, display_width);
        Board { cells: Seq::new(width * height, |i: int| false), width, height, subpixels }
    }

    /// The number of pixels in a displayed row.
    pub open spec fn display_width(self) -> nat {
        if self.subpixels {
            self.width / 3
        } else {
            self.width
        }
    }

    /// Whether `(x, y)` names a cell of the board.
    pub open spec fn in_bounds(self, x: int, y: int) -> bool {
        0 <= x < self.width && 0 <= y < self.height
    }

    /// The place of cell `(x, y)` in `cells`.
    pub open spec fn index(self, x: int, y: int) -> int {
        y * self.width + x
    }

    /// The place in `cells` of the neighbour of `(x, y)` at offset
    /// `(dx, dy)`, found around the torus.
    pub open spec fn neighbor(self, x: int, y: int, dx: int, dy: int) -> int {
        self.index(wrap(x + dx, self.width as int), wrap(y + dy, self.height as int))
    }

    /// The places of the eight neighbours of `(x, y)`, row by row, the cell
    /// itself left out.
    pub open spec fn neighbors(self, x: int, y: int) -> Seq<int> {
        seq![
            self.neighbor(x, y, -1, -1),
            self.neighbor(x, y, 0, -1),
            self.neighbor(x, y, 1, -1),
            self.neighbor(x, y, -1, 0),
            self.neighbor(x, y, 1, 0),
            self.neighbor(x, y, -1, 1),
            self.neighbor(x, y, 0, 1),
            self.neighbor(x, y, 1, 1),
        ]
    }

    /// How many of the eight neighbours of `(x, y)` are alive. A neighbour
    /// that the torus reaches twice counts twice.
    pub open spec fn live_neighbors(self, x: int, y: int) -> nat {
        let n = self.neighbors(x, y);
        unit(self.cells[n[0]]) + unit(self.cells[n[1]]) + unit(self.cells[n[2]])
            + unit(self.cells[n[3]]) + unit(self.cells[n[4]]) + unit(self.cells[n[5]])
            + unit(self.cells[n[6]]) + unit(self.cells[n[7]])
    }

    /// Whether cell `(x, y)` is alive in the next generation.
    pub open spec fn next_alive(self, x: int, y: int) -> bool {
        survives(self.cells[self.index(x, y)], self.live_neighbors(x, y))
    }

    /// The next generation: every cell follows the rule on the neighbours it
    /// has in this one.
    pub open spec fn step(self) -> Board {
        Board {
            cells: Seq::new(
                self.cells.len(),
                |i: int| self.next_alive(i % self.width as int, i / self.width as int),
            ),
            ..self
        }
    }

    /// The colour of displayed pixel `(x, y)`: red, green, blue, alpha.
    ///
    /// A plain board shows a live cell white and a dead one black. A
    /// sub-pixel board gives each channel to one of the pixel's three cells.
    pub open spec fn pixel(self, x: int, y: int) -> Seq<u8> {
        if self.subpixels {
            let i = self.index(3 * x, y);
            seq![
                channel(self.cells[i]),
                channel(self.cells[i + 1]),
                channel(self.cells[i + 2]),
                255u8,
            ]
        } else {
            let c = channel(self.cells[self.index(x, y)]);
            seq![c, c, c, 255u8]
        }
    }
}

/// A cell inside the shape has its place inside the storage.
pub proof fn lemma_index_in_bounds(board: Board, x: int, y: int)
    requires
        board.wf(),
        board.in_bounds(x, y),
    ensures
        0 <= board.index(x, y) < board.cells.len(),
{
    let w = board.width as int;
    let h = board.height as int;
    assert(y * w + x < w * h) by (nonlinear_arith)
        requires
            0 <= x < w,
            0 <= y < h,
    ;
    assert(0 <= y * w) by (nonlinear_arith)
        requires
            0 <= y,
            0 < w,
    ;
}

/// Wrapping leaves a coordinate inside `0 .. n` alone, sends `-1` to the far
/// end and `n` back to `0`; whatever lies at most one step outside comes
/// back inside.
pub proof fn lemma_wrap(i: int, n: int)
    requires
        n > 0,
        -1 <= i <= n,
    ensures
        0 <= wrap(i, n) < n,
        0 <= i < n ==> wrap(i, n) == i,
        i == -1 ==> wrap(i, n) == n - 1,
        i == n ==> wrap(i, n) == 0,
{
    if i == -1 {
        lemma_fundamental_div_mod_converse(i + n, n, 0, n - 1);
    } else if i == n {
        lemma_fundamental_div_mod_converse(i + n, n, 2, 0);
    } else {
        lemma_fundamental_div_mod_converse(i + n, n, 1, i);
    }
}

/// A place in the storage names one cell only: from `index(x, y)` the column
/// and the row can be read back.
pub proof fn lemma_index_coordinates(board: Board, x: int, y: int)
    requires
        board.wf(),
        board.in_bounds(x, y),
    ensures
        board.index(x, y) % board.width as int == x,
        board.index(x, y) / board.width as int == y,
{
    lemma_fundamental_div_mod_converse(board.index(x, y), board.width as int, y, x);
}

/// Every place in the storage is the place of a cell inside the shape.
pub proof fn lemma_place_coordinates(board: Board, i: int)
    requires
        board.wf(),
        0 <= i < board.cells.len(),
    ensures
        board.in_bounds(i % board.width as int, i / board.width as int),
        board.index(i % board.width as int, i / board.width as int) == i,
{
    let w = board.width as int;
    let h = board.height as int;
    vstd::arithmetic::div_mod::lemma_fundamental_div_mod(i, w);
    vstd::arithmetic::div_mod::lemma_mod_bound(i, w);
    vstd::arithmetic::div_mod::lemma_div_pos_is_pos(i, w);
    let q = i / w;
    let r = i % w;
    assert(q * w == w * q) by (nonlinear_arith);
    assert(q < h) by (nonlinear_arith)
        requires
            0 <= r,
            0 < w,
            q * w + r < w * h,
    ;
}

/// The toroidal lookup never leaves the storage: whatever cell of the board
/// one starts from, and whichever of the nine offsets one takes, the place
/// found holds a cell.
pub proof fn lemma_neighbor_in_bounds(board: Board, x: int, y: int, dx: int, dy: int)
    requires
        board.wf(),
        board.in_bounds(x, y),
        -1 <= dx <= 1,
        -1 <= dy <= 1,
    ensures
        board.in_bounds(wrap(x + dx, board.width as int), wrap(y + dy, board.height as int)),
        0 <= board.neighbor(x, y, dx, dy) < board.cells.len(),
{
    lemma_wrap(x + dx, board.width as int);
    lemma_wrap(y + dy, board.height as int);
    lemma_index_in_bounds(
        board,
        wrap(x + dx, board.width as int),
        wrap(y + dy, board.height as int),
    );
}

/// Every cell has exactly eight neighbours, each of them inside the storage,
/// so at most eight of them are alive. This holds of boards of every size,
/// the one-cell board included.
pub proof fn lemma_eight_neighbors(board: Board, x: int, y: int)
    requires
        board.wf(),
        board.in_bounds(x, y),
    ensures
        board.neighbors(x, y).len() == 8,
        forall|k: int|
            0 <= k < 8 ==> 0 <= #[trigger] board.neighbors(x, y)[k] < board.cells.len(),
        board.live_neighbors(x, y) <= 8,
{
    lemma_neighbor_in_bounds(board, x, y, -1, -1);
    lemma_neighbor_in_bounds(board, x, y, 0, -1);
    lemma_neighbor_in_bounds(board, x, y, 1, -1);
    lemma_neighbor_in_bounds(board, x, y, -1, 0);
    lemma_neighbor_in_bounds(board, x, y, 1, 0);
    lemma_neighbor_in_bounds(board, x, y, -1, 1);
    lemma_neighbor_in_bounds(board, x, y, 0, 1);
    lemma_neighbor_in_bounds(board, x, y, 1, 1);
}

/// On a board at least three cells wide and high, two different offsets
/// lead to two different places: the torus does not fold a cell's
/// surroundings onto themselves.
pub proof fn lemma_offsets_lead_apart(
    board: Board,
    x: int,
    y: int,
    dx: int,
    dy: int,
    ex: int,
    ey: int,
)
    requires
        board.wf(),
        board.width >= 3,
        board.height >= 3,
        board.in_bounds(x, y),
        -1 <= dx <= 1,
        -1 <= dy <= 1,
        -1 <= ex <= 1,
        -1 <= ey <= 1,
        dx != ex || dy != ey,
    ensures
        board.neighbor(x, y, dx, dy) != board.neighbor(x, y, ex, ey),
{
    let w = board.width as int;
    let h = board.height as int;
    lemma_wrap(x + dx, w);
    lemma_wrap(x + ex, w);
    lemma_wrap(y + dy, h);
    lemma_wrap(y + ey, h);
    lemma_index_coordinates(board, wrap(x + dx, w), wrap(y + dy, h));
    lemma_index_coordinates(board, wrap(x + ex, w), wrap(y + ey, h));
}

/// On a board at least three cells wide and high the eight neighbours of a
/// cell are eight different cells, none of them the cell itself.
pub proof fn lemma_neighbors_distinct(board: Board, x: int, y: int)
    requires
        board.wf(),
        board.width >= 3,
        board.height >= 3,
        board.in_bounds(x, y),
    ensures
        forall|j: int, k: int|
            0 <= j < k < 8 ==> #[trigger] board.neighbors(x, y)[j]
                != #[trigger] board.neighbors(x, y)[k],
        forall|k: int| 0 <= k < 8 ==> #[trigger] board.neighbors(x, y)[k] != board.index(x, y),
{
    assert forall|dx: int, dy: int, ex: int, ey: int|
        -1 <= dx <= 1 && -1 <= dy <= 1 && -1 <= ex <= 1 && -1 <= ey <= 1 && (dx != ex || dy
            != ey) implies #[trigger] board.neighbor(x, y, dx, dy) != #[trigger] board.neighbor(
        x,
        y,
        ex,
        ey,
    ) by {
        lemma_offsets_lead_apart(board, x, y, dx, dy, ex, ey);
    }
    lemma_wrap(x, board.width as int);
    lemma_wrap(y, board.height as int);
    assert(board.neighbor(x, y, 0, 0) == board.index(x, y));
}

/// How many cells of a sequence are alive.
pub open spec fn population(cells: Seq<bool>) -> nat
    decreases cells.len(),
{
    if cells.len() == 0 {
        0
    } else {
        population(cells.drop_last()) + unit(cells.last())
    }
}

/// On a board of three by three cells the neighbours of a cell are all the
/// other cells: its live neighbours and the cell itself make up the whole
/// population, at the corners and edges as in the middle.
pub proof fn lemma_three_by_three(board: Board, x: int, y: int)
    requires
        board.wf(),
        board.width == 3,
        board.height == 3,
        board.in_bounds(x, y),
    ensures
        board.live_neighbors(x, y) + unit(board.cells[board.index(x, y)]) == population(
            board.cells,
        ),
{
    let c = board.cells;
    assert(c.len() == 9) by (nonlinear_arith)
        requires
            c.len() == board.width * board.height,
            board.width == 3,
            board.height == 3,
    ;
    assert(population(c) == unit(c[0]) + unit(c[1]) + unit(c[2]) + unit(c[3]) + unit(c[4]) + unit(
        c[5],
    ) + unit(c[6]) + unit(c[7]) + unit(c[8])) by {
        reveal_with_fuel(population, 10);
    }
    assert(wrap(-1, 3) == 2 && wrap(0, 3) == 0 && wrap(1, 3) == 1 && wrap(2, 3) == 2 && wrap(3, 3)
        == 0);
}

/// A cell's fate as the next generation records it: the cell at `(x, y)` of
/// the next generation is alive exactly when the rule says so of the cell
/// and its neighbours in this generation. No cell of the next generation
/// takes part in deciding another.
pub proof fn lemma_step_cell(board: Board, x: int, y: int)
    requires
        board.wf(),
        board.in_bounds(x, y),
    ensures
        board.step().cells[board.index(x, y)] == survives(
            board.cells[board.index(x, y)],
            board.live_neighbors(x, y),
        ),
{
    lemma_index_in_bounds(board, x, y);
    lemma_index_coordinates(board, x, y);
}

/// A step keeps the shape of the board.
pub proof fn lemma_step_keeps_shape(board: Board)
    requires
        board.wf(),
    ensures
        board.step().wf(),
        board.step().same_shape(board),
{
}

/// A cell with fewer than two live neighbours, or more than three, is dead
/// in the next generation, whatever it was.
pub proof fn lemma_lonely_or_crowded_dies(board: Board, x: int, y: int)
    requires
        board.wf(),
        board.in_bounds(x, y),
        board.live_neighbors(x, y) < 2 || board.live_neighbors(x, y) > 3,
    ensures
        !board.step().cells[board.index(x, y)],
{
    lemma_step_cell(board, x, y);
}

/// A board without a live cell stays without one.
pub proof fn lemma_dead_stays_dead(board: Board)
    requires
        board.wf(),
        forall|i: int| 0 <= i < board.cells.len() ==> !board.cells[i],
    ensures
        board.step() == board,
{
    assert forall|i: int| 0 <= i < board.cells.len() implies !board.step().cells[i] by {
        let x = i % board.width as int;
        let y = i / board.width as int;
        lemma_place_coordinates(board, i);
        lemma_eight_neighbors(board, x, y);
        assert(board.live_neighbors(x, y) == 0);
    }
    assert(board.step().cells =~= board.cells);
}

/// In sub-pixel mode the three cells of displayed pixel number
/// `i = y * display_width + x` lie at `3 * i`, `3 * i + 1` and `3 * i + 2`,
/// all inside the storage.
pub proof fn lemma_subpixel_places(board: Board, x: int, y: int)
    requires
        board.wf(),
        board.subpixels,
        0 <= x < board.display_width(),
        0 <= y < board.height,
    ensures
        board.index(3 * x, y) == 3 * (y * board.display_width() + x),
        0 <= board.index(3 * x, y),
        board.index(3 * x, y) + 2 < board.cells.len(),
        board.pixel(x, y) == seq![
            channel(board.cells[3 * (y * board.display_width() + x)]),
            channel(board.cells[3 * (y * board.display_width() + x) + 1]),
            channel(board.cells[3 * (y * board.display_width() + x) + 2]),
            255u8,
        ],
{
    let w = board.width as int;
    let d = board.display_width() as int;
    assert(w == 3 * d);
    assert(y * w == 3 * (y * d)) by (nonlinear_arith)
        requires
            w == 3 * d,
    ;
    lemma_index_in_bounds(board, 3 * x + 2, y);
    lemma_index_in_bounds(board, 3 * x, y);
}

/// On a plain board displayed pixel `(x, y)` is cell `(x, y)`: white when
/// the cell is alive, black when it is dead.
pub proof fn lemma_plain_pixel(board: Board, x: int, y: int)
    requires
        board.wf(),
        !board.subpixels,
        board.in_bounds(x, y),
    ensures
        board.display_width() == board.width,
        board.cells[board.index(x, y)] ==> board.pixel(x, y) == seq![255u8, 255u8, 255u8, 255u8],
        !board.cells[board.index(x, y)] ==> board.pixel(x, y) == seq![0u8, 0u8, 0u8, 255u8],
{
}

} // verus!
