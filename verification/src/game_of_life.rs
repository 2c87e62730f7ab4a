//! The executable game: a grid of cells that is stepped, randomised and
//! turned into colours.

use crate::board::{lemma_index_in_bounds, lemma_step_cell, lemma_wrap, unit, wrap, Board};
use crate::density::Density;
use crate::random::{random_ratio, thread_rng};
use vstd::prelude::*;

verus! {

/// A game of Life on a torus. Its view is the `Board` it holds.
pub struct GameOfLife {
    grid: Vec<bool>,
    width: usize,
    height: usize,
    subpixels: bool,
}

impl View for GameOfLife {
    type V = Board;

    closed spec fn view(&self) -> Board {
        Board {
            cells: self.grid@,
            width: self.width as nat,
            height: self.height as nat,
            subpixels: self.subpixels,
        }
    }
}

impl GameOfLife {
    /// The game holds a board of sound shape.
    pub open spec fn wf(&self) -> bool {
        self@.wf()
    }

    /// The cells of a sound game fill its shape, and their number fits in a
    /// `usize`.
    proof fn lemma_storage(&self)
        requires
            self.wf(),
        ensures
            self.grid.len() == self.width * self.height,
            self.width * self.height <= usize::MAX,
    {
        assert(self.grid.len() == self.grid@.len());
    }

    /// The number of cells that a game of the given displayed size stores,
    /// or `None` where a dimension is zero or the cells cannot be counted
    /// in a `usize`.
    pub fn storage_len(subpixels: bool, width: usize, height: usize) -> (len: Option<usize>)
        ensures
            match len {
                Some(n) => width > 0 && height > 0 && n == Board::storage_width(
                    subpixels,
                    width as nat,
                ) * height,
                None => width == 0 || height == 0 || Board::storage_width(subpixels, width as nat)
                    * height > usize::MAX,
            },
    {
        if width == 0 || height == 0 {
            return None;
        }
        let stored_width = if subpixels {
            width.checked_mul(3)
        } else {
            Some(width)
        };
        match stored_width {
            Some(stored_width) => stored_width.checked_mul(height),
            None => {
                proof {
                    Self::lemma_row_fits(subpixels, width, height);
                }
                None
            },
        }
    }

    /// Where all the cells of a board can be counted in a `usize`, so can
    /// those of one row.
    proof fn lemma_row_fits(subpixels: bool, width: usize, height: usize)
        requires
            height > 0,
        ensures
            Board::storage_width(subpixels, width as nat) <= Board::storage_width(
                subpixels,
                width as nat,
            ) * height,
    {
        let stored_width = Board::storage_width(subpixels, width as nat);
        assert(stored_width <= stored_width * height) by (nonlinear_arith)
            requires
                height >= 1,
        ;
    }

    /// Create a new game state with all cells dead.
    ///
    /// `width` and `height` give the displayed size. In sub-pixel mode the
    /// game stores three cells for each displayed pixel of a row.
    /// `life_density` is part of a game's configuration but takes no part in
    /// making it: it only tells `randomize` how to fill the board.
    #[allow(unused_variables)]
    pub fn new(subpixels: bool, width: usize, height: usize, life_density: Density) -> (game: Self)
        requires
            width > 0,
            height > 0,
            Board::storage_width(subpixels, width as nat) * height <= usize::MAX,
        ensures
            game.wf(),
            game@ == Board::dead(subpixels, width as nat, height as nat),
    {
        proof {
            Self::lemma_row_fits(subpixels, width, height);
        }
        let mut stored_width = width;
        if subpixels {
            stored_width = width * 3;
        }
        let grid = vec![false; stored_width * height];
        let game = GameOfLife { subpixels, grid, width: stored_width, height };
        assert(game@.cells =~= Board::dead(subpixels, width as nat, height as nat).cells);
        game
    }

    /// A game of the given displayed size that holds `cells`, row by row, or
    /// `None` where a dimension is zero or `cells` does not fill the shape.
    pub fn from_cells(subpixels: bool, width: usize, height: usize, cells: Vec<bool>) -> (game:
        Option<Self>)
        ensures
            match game {
                Some(g) => g.wf() && g@ == (Board {
                    cells: cells@,
                    width: Board::storage_width(subpixels, width as nat),
                    height: height as nat,
                    subpixels,
                }),
                None => width == 0 || height == 0 || cells.len() != Board::storage_width(
                    subpixels,
                    width as nat,
                ) * height,
            },
    {
        match Self::storage_len(subpixels, width, height) {
            Some(len) => {
                if cells.len() != len {
                    return None;
                }
                proof {
                    Self::lemma_row_fits(subpixels, width, height);
                }
                let mut stored_width = width;
                if subpixels {
                    stored_width = width * 3;
                }
                Some(GameOfLife { subpixels, grid: cells, width: stored_width, height })
            },
            None => None,
        }
    }

    /// Randomize the grid: every cell is drawn anew, alive with probability
    /// `life_density`, each by a draw of its own.
    ///
    /// Which cells come alive is a matter of chance, but for the two
    /// densities that leave nothing to chance: at zero the board is dead, at
    /// one every cell is alive.
    pub fn randomize(&mut self, life_density: Density)
        requires
            old(self).wf(),
            life_density.wf(),
        ensures
            final(self).wf(),
            final(self)@.same_shape(old(self)@),
            life_density.never() ==> forall|i: int|
                0 <= i < final(self)@.cells.len() ==> !final(self)@.cells[i],
            life_density.always() ==> forall|i: int|
                0 <= i < final(self)@.cells.len() ==> final(self)@.cells[i],
    {
        proof {
            self.lemma_storage();
        }
        self.grid = Self::new_grid(self.width, self.height, life_density);
    }

    /// Update the grid using the standard Game of Life rules.
    ///
    /// The whole next generation is worked out from the present one before
    /// any of it is installed.
    pub fn update(&mut self)
        requires
            old(self).wf(),
        ensures
            final(self).wf(),
            final(self)@ == old(self)@.step(),
    {
        self.grid = self.next();
    }

    /// The colour of displayed pixel `(x, y)` as red, green, blue, alpha.
    pub fn pixel_color(&mut self, x: usize, y: usize) -> (rgba: [u8; 4])
        requires
            old(self).wf(),
            x < old(self)@.display_width(),
            y < old(self)@.height,
        ensures
            *final(self) == *old(self),
            rgba@ == old(self)@.pixel(x as int, y as int),
    {
        match self.subpixels {
            true => {
                proof {
                    self.lemma_storage();
                    lemma_index_in_bounds(self@, 3 * x + 2, y as int);
                }
                let i = self.index(x * 3, y);
                let r = if self.grid[i + 0] {
                    255
                } else {
                    0
                };
                let g = if self.grid[i + 1] {
                    255
                } else {
                    0
                };
                let b = if self.grid[i + 2] {
                    255
                } else {
                    0
                };
                let rgba = [r, g, b, 255];
                assert(rgba@ =~= self@.pixel(x as int, y as int));
                rgba
            },
            false => {
                let i = self.index(x, y);
                let rgba = if self.grid[i] {
                    [255, 255, 255, 255]
                } else {
                    [0, 0, 0, 255]
                };
                assert(rgba@ =~= self@.pixel(x as int, y as int));
                rgba
            },
        }
    }

    /// The cells of the next generation, row by row. The game itself is left
    /// as it is.
    pub fn next(&mut self) -> (next: Vec<bool>)
        requires
            old(self).wf(),
        ensures
            *final(self) == *old(self),
            next@ == old(self)@.step().cells,
    {
        proof {
            self.lemma_storage();
        }
        let mut next = self.grid.clone();
        let mut y: usize = 0;
        while y < self.height
            invariant
                *self == *old(self),
                self.wf(),
                y <= self.height,
                next.len() == self.width * self.height,
                forall|i: int|
                    0 <= i < y * self.width ==> next[i] == #[trigger] self@.step().cells[i],
            decreases self.height - y,
        {
            let mut x: usize = 0;
            while x < self.width
                invariant
                    *self == *old(self),
                    self.wf(),
                    y < self.height,
                    x <= self.width,
                    next.len() == self.width * self.height,
                    forall|i: int|
                        0 <= i < y * self.width + x ==> next[i] == #[trigger] self@.step().cells[i],
                decreases self.width - x,
            {
                let idx = self.index(x, y);
                let live_neighbors = self.live_neighbor_count(x, y);
                let alive = match (self.grid[idx], live_neighbors) {
                    (true, 2) | (true, 3) => true,  // Stays alive
                    (false, 3) => true,  // Becomes alive
                    _ => false,  // Otherwise, dead
                };
                proof {
                    lemma_step_cell(self@, x as int, y as int);
                }
                next.set(idx, alive);
                x += 1;
            }
            assert((y + 1) * self.width == y * self.width + self.width) by (nonlinear_arith);
            y += 1;
        }
        assert(next@ =~= self@.step().cells);
        next
    }

    /// Helper to convert 2D coordinates to 1D index.
    pub fn index(&mut self, x: usize, y: usize) -> (i: usize)
        requires
            old(self).wf(),
            old(self)@.in_bounds(x as int, y as int),
        ensures
            *final(self) == *old(self),
            i == old(self)@.index(x as int, y as int),
            i < old(self)@.cells.len(),
    {
        proof {
            self.lemma_storage();
            lemma_index_in_bounds(self@, x as int, y as int);
        }
        y * self.width + x
    }

    /// Count live neighbors with wrap-around (toroidal grid).
    pub fn live_neighbor_count(&mut self, x: usize, y: usize) -> (count: u8)
        requires
            old(self).wf(),
            old(self)@.in_bounds(x as int, y as int),
        ensures
            *final(self) == *old(self),
            count == old(self)@.live_neighbors(x as int, y as int),
            count <= 8,
    {
        let left = Self::step_back(x, self.width);
        let right = Self::step_on(x, self.width);
        let above = Self::step_back(y, self.height);
        let below = Self::step_on(y, self.height);
        proof {
            lemma_wrap(x as int, self.width as int);
            lemma_wrap(y as int, self.height as int);
        }
        let mut count: u8 = 0;
        // Check neighbors in a 3x3 block around (x, y), skipping the cell itself
        count += self.live_at(left, above);
        count += self.live_at(x, above);
        count += self.live_at(right, above);
        count += self.live_at(left, y);
        count += self.live_at(right, y);
        count += self.live_at(left, below);
        count += self.live_at(x, below);
        count += self.live_at(right, below);
        count
    }

    /// One if the cell at `(x, y)` is alive, zero if it is dead.
    fn live_at(&mut self, x: usize, y: usize) -> (n: u8)
        requires
            old(self).wf(),
            old(self)@.in_bounds(x as int, y as int),
        ensures
            *final(self) == *old(self),
            n == unit(old(self)@.cells[old(self)@.index(x as int, y as int)]),
    {
        let idx = self.index(x, y);
        if self.grid[idx] {
            1
        } else {
            0
        }
    }

    /// The coordinate one step before `i` on a ring of `n` places.
    fn step_back(i: usize, n: usize) -> (j: usize)
        requires
            i < n,
        ensures
            j == wrap(i - 1, n as int),
            j < n,
    {
        proof {
            lemma_wrap(i - 1, n as int);
        }
        if i == 0 {
            n - 1
        } else {
            i - 1
        }
    }

    /// The coordinate one step after `i` on a ring of `n` places.
    fn step_on(i: usize, n: usize) -> (j: usize)
        requires
            i < n,
        ensures
            j == wrap(i + 1, n as int),
            j < n,
    {
        proof {
            lemma_wrap(i + 1, n as int);
        }
        if i == n - 1 {
            0
        } else {
            i + 1
        }
    }

    /// A fresh grid of `width * height` cells, each drawn alive with
    /// probability `life_density`.
    pub fn new_grid(width: usize, height: usize, life_density: Density) -> (grid: Vec<bool>)
        requires
            width * height <= usize::MAX,
            life_density.wf(),
        ensures
            grid.len() == width * height,
            life_density.never() ==> forall|i: int| 0 <= i < grid.len() ==> !grid[i],
            life_density.always() ==> forall|i: int| 0 <= i < grid.len() ==> grid[i],
    {
        let mut grid = vec![false; width * height];
        let mut rng = thread_rng();
        let mut i: usize = 0;
        while i < grid.len()
            invariant
                grid.len() == width * height,
                life_density.wf(),
                i <= grid.len(),
                life_density.never() ==> forall|k: int| 0 <= k < i ==> !grid[k],
                life_density.always() ==> forall|k: int| 0 <= k < i ==> grid[k],
            decreases grid.len() - i,
        {
            let alive = random_ratio(&mut rng, life_density.numerator(), life_density.denominator());
            grid.set(i, alive);
            i += 1;
        }
        grid
    }

    /// The number of cells in a stored row.
    pub fn width(&self) -> (w: usize)
        ensures
            w == self@.width,
    {
        self.width
    }

    /// The number of rows.
    pub fn height(&self) -> (h: usize)
        ensures
            h == self@.height,
    {
        self.height
    }

    /// Whether three cells make up one displayed pixel.
    pub fn subpixels(&self) -> (s: bool)
        ensures
            s == self@.subpixels,
    {
        self.subpixels
    }

    /// The cells, row by row.
    pub fn cells(&self) -> (cells: &Vec<bool>)
        ensures
            cells@ == self@.cells,
    {
        &self.grid
    }
}

} // verus!
