use rand::Rng;
use vstd::prelude::*;

verus! {

/// How many random cells `generate_apple` draws before it falls back to
/// taking the first empty cell.
pub const APPLE_TRIES: u32 = 64;

/// Relies on rand's `thread_rng` and `Rng::gen_range(low, high)`, which
/// returns a value in `[low, high)` and panics only when `low >= high`.
#[verifier::external_body]
fn random_below(bound: u32) -> (r: u32)
    requires
        0 < bound,
    ensures
        r < bound,
{
    rand::thread_rng().gen_range(0, bound)
}

/// What one cell of the board holds.
#[derive(Debug, Clone, Copy, PartialEq, Eq, Structural)]
pub enum Cell {
    SnakeBody,
    Apple,
    Empty,
}

/// A rectangular store of cells, `height` rows of `width` columns.
pub struct Board {
    height: u32,
    width: u32,
    grid: Vec<Vec<Cell>>,
}

impl Board {
    /// The cells, row by row.
    pub closed spec fn cells(&self) -> Seq<Seq<Cell>> {
        self.grid@.map_values(|row: Vec<Cell>| row@)
    }

    pub closed spec fn rows(&self) -> nat {
        self.height as nat
    }

    pub closed spec fn cols(&self) -> nat {
        self.width as nat
    }

    /// The board has `rows()` rows of `cols()` cells, and both are positive.
    pub open spec fn wf(&self) -> bool {
        &&& self.rows() > 0
        &&& self.cols() > 0
        &&& self.cells().len() == self.rows()
        &&& forall|y: int| 0 <= y < self.rows() ==> #[trigger] self.cells()[y].len() == self.cols()
    }

    /// The cell at row `y`, column `x`.
    pub open spec fn cell(&self, y: int, x: int) -> Cell {
        self.cells()[y][x]
    }

    pub open spec fn in_bounds(&self, y: int, x: int) -> bool {
        0 <= y < self.rows() && 0 <= x < self.cols()
    }

    /// The cells after writing `c` at row `y`, column `x`.
    pub open spec fn with_cell(&self, y: int, x: int, c: Cell) -> Seq<Seq<Cell>> {
        self.cells().update(y, self.cells()[y].update(x, c))
    }

    /// No cell of the board is empty.
    pub open spec fn full(&self) -> bool {
        forall|y: int, x: int| self.in_bounds(y, x) ==> self.cell(y, x) != Cell::Empty
    }

    /// `(y2, x2)` comes before `(y, x)` when the board is read row by row.
    pub open spec fn before(y2: int, x2: int, y: int, x: int) -> bool {
        y2 < y || (y2 == y && x2 < x)
    }

    /// A new board with every cell empty.
    pub fn new(height: u32, width: u32) -> (b: Board)
        requires
            height > 0,
            width > 0,
        ensures
            b.wf(),
            b.rows() == height,
            b.cols() == width,
            forall|y: int, x: int| b.in_bounds(y, x) ==> b.cell(y, x) == Cell::Empty,
    {
        let mut grid: Vec<Vec<Cell>> = Vec::new();
        let mut i: u32 = 0;
        while i < height
            invariant
                i <= height,
                grid@.len() == i,
                forall|y: int| 0 <= y < i ==> #[trigger] grid@[y]@.len() == width,
                forall|y: int, x: int|
                    0 <= y < i && 0 <= x < width ==> #[trigger] grid@[y]@[x] == Cell::Empty,
            decreases height - i,
        {
            let mut row: Vec<Cell> = Vec::new();
            let mut j: u32 = 0;
            while j < width
                invariant
                    j <= width,
                    row@.len() == j,
                    forall|x: int| 0 <= x < j ==> #[trigger] row@[x] == Cell::Empty,
                decreases width - j,
            {
                row.push(Cell::Empty);
                j = j + 1;
            }
            grid.push(row);
            i = i + 1;
        }
        Board { height, width, grid }
    }

    pub fn height(&self) -> (r: u32)
        ensures
            r == self.rows(),
    {
        self.height
    }

    pub fn width(&self) -> (r: u32)
        ensures
            r == self.cols(),
    {
        self.width
    }

    /// Writes `cell` at row `y`, column `x`; every other cell is kept.
    pub fn set_cell(&mut self, y: u32, x: u32, cell: Cell)
        requires
            old(self).wf(),
            old(self).in_bounds(y as int, x as int),
        ensures
            final(self).wf(),
            final(self).rows() == old(self).rows(),
            final(self).cols() == old(self).cols(),
            final(self).cells() == old(self).with_cell(y as int, x as int, cell),
    {
        assert(self.grid@[y as int]@ == self.cells()[y as int]);
        self.grid[y as usize][x as usize] = cell;
        assert(self.cells() =~= old(self).cells().update(
            y as int,
            old(self).cells()[y as int].update(x as int, cell),
        ));
    }

    /// The cell at row `y`, column `x`.
    pub fn get_cell(&self, y: u32, x: u32) -> (r: Cell)
        requires
            self.wf(),
            self.in_bounds(y as int, x as int),
        ensures
            r == self.cell(y as int, x as int),
    {
        self.grid[y as usize][x as usize]
    }

    /// Reading a cell after writing it gives what was written, and every
    /// other cell keeps what it held.
    pub proof fn lemma_set_then_get(&self, y: int, x: int, c: Cell)
        requires
            self.wf(),
            self.in_bounds(y, x),
        ensures
            self.with_cell(y, x, c)[y][x] == c,
            forall|y2: int, x2: int|
                self.in_bounds(y2, x2) && (y2 != y || x2 != x) ==> #[trigger] self.with_cell(
                    y,
                    x,
                    c,
                )[y2][x2] == self.cell(y2, x2),
    {
    }

    /// On a board whose only empty cell is at row `y`, column `x`, the
    /// board is not full, and an empty cell that `generate_apple` may
    /// choose can only be that one.
    pub proof fn lemma_single_empty_cell(&self, y: int, x: int, y2: int, x2: int)
        requires
            self.wf(),
            self.in_bounds(y, x),
            self.cell(y, x) == Cell::Empty,
            forall|y3: int, x3: int|
                self.in_bounds(y3, x3) && (y3 != y || x3 != x) ==> self.cell(y3, x3)
                    != Cell::Empty,
            self.in_bounds(y2, x2),
            self.cell(y2, x2) == Cell::Empty,
        ensures
            !self.full(),
            y2 == y && x2 == x,
    {
    }

    /// The first empty cell, reading row by row, or `None` on a full board.
    pub fn first_empty_cell(&self) -> (r: Option<(u32, u32)>)
        requires
            self.wf(),
        ensures
            r is None <==> self.full(),
            r matches Some((y, x)) ==> {
                &&& self.in_bounds(y as int, x as int)
                &&& self.cell(y as int, x as int) == Cell::Empty
                &&& forall|y2: int, x2: int|
                    self.in_bounds(y2, x2) && Self::before(y2, x2, y as int, x as int)
                        ==> self.cell(y2, x2) != Cell::Empty
            },
    {
        let mut y: u32 = 0;
        while y < self.height
            invariant
                self.wf(),
                y <= self.rows(),
                forall|y2: int, x2: int|
                    0 <= y2 < y && 0 <= x2 < self.cols() ==> self.cell(y2, x2) != Cell::Empty,
            decreases self.height - y,
        {
            let mut x: u32 = 0;
            while x < self.width
                invariant
                    self.wf(),
                    y < self.rows(),
                    x <= self.cols(),
                    forall|y2: int, x2: int|
                        0 <= y2 < y && 0 <= x2 < self.cols() ==> self.cell(y2, x2) != Cell::Empty,
                    forall|x2: int| 0 <= x2 < x ==> self.cell(y as int, x2) != Cell::Empty,
                decreases self.width - x,
            {
                if self.get_cell(y, x) == Cell::Empty {
                    return Some((y, x));
                }
                x = x + 1;
            }
            y = y + 1;
        }
        None
    }

    /// Whether every cell is occupied.
    pub fn is_full(&self) -> (r: bool)
        requires
            self.wf(),
        ensures
            r == self.full(),
    {
        self.first_empty_cell().is_none()
    }

    /// Puts an apple at row `y`, column `x` if that cell is empty; says
    /// whether it did. The board is unchanged otherwise.
    pub fn place_apple(&mut self, y: u32, x: u32) -> (placed: bool)
        requires
            old(self).wf(),
            old(self).in_bounds(y as int, x as int),
        ensures
            final(self).wf(),
            final(self).rows() == old(self).rows(),
            final(self).cols() == old(self).cols(),
            placed == (old(self).cell(y as int, x as int) == Cell::Empty),
            placed ==> final(self).cells() == old(self).with_cell(y as int, x as int, Cell::Apple),
            !placed ==> final(self).cells() == old(self).cells(),
    {
        if self.get_cell(y, x) == Cell::Empty {
            self.set_cell(y, x, Cell::Apple);
            true
        } else {
            false
        }
    }

    /// Puts an apple on an empty cell chosen at random and returns that
    /// cell, or returns `None` and leaves the board as it is when the board
    /// is full. After `APPLE_TRIES` random draws that all hit an occupied
    /// cell, the first empty cell is taken, so a board with room always gets
    /// its apple.
    pub fn generate_apple(&mut self) -> (r: Option<(u32, u32)>)
        requires
            old(self).wf(),
        ensures
            final(self).wf(),
            final(self).rows() == old(self).rows(),
            final(self).cols() == old(self).cols(),
            r is None <==> old(self).full(),
            r is None ==> final(self).cells() == old(self).cells(),
            r matches Some((y, x)) ==> {
                &&& old(self).in_bounds(y as int, x as int)
                &&& old(self).cell(y as int, x as int) == Cell::Empty
                &&& final(self).cells() == old(self).with_cell(y as int, x as int, Cell::Apple)
            },
    {
        if self.is_full() {
            return None;
        }
        let mut tries: u32 = 0;
        while tries < APPLE_TRIES
            invariant
                self.wf(),
                self.rows() == old(self).rows(),
                self.cols() == old(self).cols(),
                self.cells() == old(self).cells(),
                !old(self).full(),
            decreases APPLE_TRIES - tries,
        {
            let y = random_below(self.height);
            let x = random_below(self.width);
            if self.place_apple(y, x) {
                return Some((y, x));
            }
            tries = tries + 1;
        }
        assert(!self.full()) by {
            let (y, x) = choose|y: int, x: int|
                old(self).in_bounds(y, x) && old(self).cell(y, x) == Cell::Empty;
            assert(self.in_bounds(y, x) && self.cell(y, x) == Cell::Empty);
        }
        match self.first_empty_cell() {
            Some((y, x)) => {
                self.set_cell(y, x, Cell::Apple);
                Some((y, x))
            },
            None => None,
        }
    }
}

} // verus!
