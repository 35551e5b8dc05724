use crate::game::Direction;
use vstd::prelude::*;

verus! {

/// A character to draw at a cell of the board window.
#[derive(Debug, Clone, Copy, PartialEq, Eq, Structural)]
pub struct Glyph {
    pub row: u32,
    pub col: u32,
    pub ch: char,
}

/// The row reached by one step up: row 1 wraps to `max_y - 1`.
pub open spec fn up_row(y: int, max_y: int) -> int {
    if y <= 1 {
        max_y - 1
    } else {
        y - 1
    }
}

/// The row reached by one step down: row `max_y - 1` wraps to 1.
pub open spec fn down_row(y: int, max_y: int) -> int {
    if y >= max_y - 1 {
        1
    } else {
        y + 1
    }
}

/// The column reached by one step left. A step covers two columns; from
/// column 2 it stops at column 1, and column 1 wraps to `max_x - 1`.
pub open spec fn left_col(x: int, max_x: int) -> int {
    if x <= 1 {
        max_x - 1
    } else if x == 2 {
        1
    } else {
        x - 2
    }
}

/// The column reached by one step right. A step covers two columns; from
/// column `max_x - 2` it stops at `max_x - 1`, and that column wraps to 1.
pub open spec fn right_col(x: int, max_x: int) -> int {
    if x >= max_x - 1 {
        1
    } else if x == max_x - 2 {
        max_x - 1
    } else {
        x + 2
    }
}

/// The head after one step in direction `d`.
pub open spec fn next_head(d: Direction, y: int, x: int, max_y: int, max_x: int) -> (int, int) {
    match d {
        Direction::Up => (up_row(y, max_y), x),
        Direction::Down => (down_row(y, max_y), x),
        Direction::Left => (y, left_col(x, max_x)),
        Direction::Right => (y, right_col(x, max_x)),
    }
}

pub open spec fn opposite(d1: Direction, d2: Direction) -> bool {
    match (d1, d2) {
        (Direction::Up, Direction::Down) => true,
        (Direction::Down, Direction::Up) => true,
        (Direction::Left, Direction::Right) => true,
        (Direction::Right, Direction::Left) => true,
        _ => false,
    }
}

/// The direction after asking to turn from `cur` to `req`: a reversal or a
/// request for the current direction changes nothing.
pub open spec fn turned(cur: Direction, req: Direction) -> Direction {
    if opposite(cur, req) || cur == req {
        cur
    } else {
        req
    }
}

/// The first cell of the snake's head: row 10, column 10.
pub const START_ROW: u32 = 10;

pub const START_COL: u32 = 10;

/// The snake: its head, the cells it has occupied (tail first, head last),
/// the bounds of the area it moves in and its direction. It moves in rows
/// `1 ..= max_y - 1` and columns `1 ..= max_x - 1`.
pub struct Snake {
    head_y: u32,
    head_x: u32,
    body_reversed: Vec<(u32, u32)>,
    max_y: u32,
    max_x: u32,
    direction: Direction,
}

impl Snake {
    pub closed spec fn head_row(&self) -> int {
        self.head_y as int
    }

    pub closed spec fn head_col(&self) -> int {
        self.head_x as int
    }

    pub closed spec fn max_row(&self) -> int {
        self.max_y as int
    }

    pub closed spec fn max_col(&self) -> int {
        self.max_x as int
    }

    pub closed spec fn dir(&self) -> Direction {
        self.direction
    }

    /// The occupied cells, tail first and head last.
    pub closed spec fn body_cells(&self) -> Seq<(u32, u32)> {
        self.body_reversed@
    }

    /// `t` is this snake after asking it to turn to `d`.
    pub open spec fn turned_into(self, d: Direction, t: Snake) -> bool {
        &&& t.dir() == turned(self.dir(), d)
        &&& t.head_row() == self.head_row()
        &&& t.head_col() == self.head_col()
        &&& t.max_row() == self.max_row()
        &&& t.max_col() == self.max_col()
        &&& t.body_cells() == self.body_cells()
    }

    /// `t` is this snake after one step in its direction.
    pub open spec fn stepped_to(self, t: Snake) -> bool {
        &&& (t.head_row(), t.head_col()) == next_head(
            self.dir(),
            self.head_row(),
            self.head_col(),
            self.max_row(),
            self.max_col(),
        )
        &&& t.dir() == self.dir()
        &&& t.max_row() == self.max_row()
        &&& t.max_col() == self.max_col()
        &&& t.body_cells() == self.body_cells()
    }

    /// Wrap-around: when `t` is this snake one step later, a step up from
    /// row 1 lands on row `max_row() - 1` and a step down from that row
    /// lands on row 1, the column kept; a step left from column 1 lands on
    /// column `max_col() - 1` and a step right from that column lands on
    /// column 1, the row kept. Every step stays inside the border.
    pub proof fn lemma_wrap(self, t: Snake)
        requires
            self.wf(),
            self.stepped_to(t),
        ensures
            t.wf(),
            self.dir() == Direction::Up && self.head_row() == 1 ==> {
                &&& t.head_row() == self.max_row() - 1
                &&& t.head_col() == self.head_col()
            },
            self.dir() == Direction::Down && self.head_row() == self.max_row() - 1 ==> {
                &&& t.head_row() == 1
                &&& t.head_col() == self.head_col()
            },
            self.dir() == Direction::Left && self.head_col() == 1 ==> {
                &&& t.head_col() == self.max_col() - 1
                &&& t.head_row() == self.head_row()
            },
            self.dir() == Direction::Right && self.head_col() == self.max_col() - 1 ==> {
                &&& t.head_col() == 1
                &&& t.head_row() == self.head_row()
            },
    {
    }

    /// The head stays inside the border.
    pub open spec fn wf(&self) -> bool {
        &&& 1 <= self.head_row() <= self.max_row() - 1
        &&& 1 <= self.head_col() <= self.max_col() - 1
    }

    /// A snake heading right with its head at row 10, column 10, in an area
    /// bounded by `max_y` and `max_x`, which must leave that cell inside the
    /// border.
    pub fn new(max_y: u32, max_x: u32) -> (s: Snake)
        requires
            max_y > START_ROW + 1,
            max_x > START_COL + 1,
        ensures
            s.wf(),
            s.head_row() == START_ROW,
            s.head_col() == START_COL,
            s.max_row() == max_y,
            s.max_col() == max_x,
            s.dir() == Direction::Right,
            s.body_cells() == seq![(START_ROW, START_COL)],
    {
        let head_y = START_ROW;
        let head_x = START_COL;
        let mut body_reversed: Vec<(u32, u32)> = Vec::new();
        body_reversed.push((head_y, head_x));
        Snake { head_y, head_x, body_reversed, max_y, max_x, direction: Direction::Right }
    }

    /// The head drawn as '@' at its cell.
    pub fn show_snake_head(&self) -> (g: Glyph)
        ensures
            g.row == self.head_row(),
            g.col == self.head_col(),
            g.ch == '@',
    {
        Glyph { row: self.head_y, col: self.head_x, ch: '@' }
    }

    pub fn get_direction(&self) -> (d: &Direction)
        ensures
            *d == self.dir(),
    {
        &self.direction
    }

    /// The head as (row, column).
    pub fn head(&self) -> (r: (u32, u32))
        ensures
            r.0 == self.head_row(),
            r.1 == self.head_col(),
    {
        (self.head_y, self.head_x)
    }

    pub fn max_y(&self) -> (r: u32)
        ensures
            r == self.max_row(),
    {
        self.max_y
    }

    pub fn max_x(&self) -> (r: u32)
        ensures
            r == self.max_col(),
    {
        self.max_x
    }

    /// The cells occupied so far, tail first and head last.
    pub fn body(&self) -> (r: &Vec<(u32, u32)>)
        ensures
            r@ == self.body_cells(),
    {
        &self.body_reversed
    }

    fn move_up(&mut self)
        requires
            old(self).wf(),
        ensures
            final(self).wf(),
            *final(self) == (Snake { head_y: up_row(old(self).head_y as int, old(self).max_y as int) as u32, ..*old(self) }),
    {
        if self.head_y <= 1 {
            self.head_y = self.max_y - 1;
        } else {
            self.head_y = self.head_y - 1;
        }
    }

    fn move_down(&mut self)
        requires
            old(self).wf(),
        ensures
            final(self).wf(),
            *final(self) == (Snake { head_y: down_row(old(self).head_y as int, old(self).max_y as int) as u32, ..*old(self) }),
    {
        if self.head_y >= self.max_y - 1 {
            self.head_y = 1;
        } else {
            self.head_y = self.head_y + 1;
        }
    }

    fn move_left(&mut self)
        requires
            old(self).wf(),
        ensures
            final(self).wf(),
            *final(self) == (Snake { head_x: left_col(old(self).head_x as int, old(self).max_x as int) as u32, ..*old(self) }),
    {
        if self.head_x <= 1 {
            self.head_x = self.max_x - 1;
        } else if self.head_x == 2 {
            self.head_x = 1;
        } else {
            self.head_x = self.head_x - 2;
        }
    }

    fn move_right(&mut self)
        requires
            old(self).wf(),
        ensures
            final(self).wf(),
            *final(self) == (Snake { head_x: right_col(old(self).head_x as int, old(self).max_x as int) as u32, ..*old(self) }),
    {
        if self.head_x >= self.max_x - 1 {
            self.head_x = 1;
        } else if self.head_x == self.max_x - 2 {
            self.head_x = self.max_x - 1;
        } else {
            self.head_x = self.head_x + 2;
        }
    }

    /// Moves the head one step in the current direction, wrapping round at
    /// the border, and returns the vacated cell drawn as '.'.
    pub fn keep_moving_one_step(&mut self) -> (vacated: Glyph)
        requires
            old(self).wf(),
        ensures
            final(self).wf(),
            (final(self).head_row(), final(self).head_col()) == next_head(
                old(self).dir(),
                old(self).head_row(),
                old(self).head_col(),
                old(self).max_row(),
                old(self).max_col(),
            ),
            final(self).dir() == old(self).dir(),
            final(self).max_row() == old(self).max_row(),
            final(self).max_col() == old(self).max_col(),
            final(self).body_cells() == old(self).body_cells(),
            old(self).stepped_to(*final(self)),
            vacated.row == old(self).head_row(),
            vacated.col == old(self).head_col(),
            vacated.ch == '.',
    {
        let vacated = Glyph { row: self.head_y, col: self.head_x, ch: '.' };
        match self.direction {
            Direction::Up => self.move_up(),
            Direction::Down => self.move_down(),
            Direction::Left => self.move_left(),
            Direction::Right => self.move_right(),
        }
        vacated
    }

    /// Turns to `d`, unless `d` reverses the current direction or is the
    /// current direction, in which case nothing changes.
    pub fn change_direction(&mut self, d: &Direction)
        ensures
            old(self).turned_into(*d, *final(self)),
            final(self).dir() == turned(old(self).dir(), *d),
            final(self).head_row() == old(self).head_row(),
            final(self).head_col() == old(self).head_col(),
            final(self).max_row() == old(self).max_row(),
            final(self).max_col() == old(self).max_col(),
            final(self).body_cells() == old(self).body_cells(),
    {
        if !conflict_route(&self.direction, d) {
            self.direction = *d;
        }
    }
}

/// Whether turning from `d1` to `d2` is refused.
pub fn conflict_route(d1: &Direction, d2: &Direction) -> (r: bool)
    ensures
        r == (opposite(*d1, *d2) || *d1 == *d2),
{
    opposite_direction(d1, d2) || same_direction(d1, d2)
}

pub fn opposite_direction(d1: &Direction, d2: &Direction) -> (r: bool)
    ensures
        r == opposite(*d1, *d2),
{
    match (d1, d2) {
        (Direction::Up, Direction::Down) => true,
        (Direction::Down, Direction::Up) => true,
        (Direction::Left, Direction::Right) => true,
        (Direction::Right, Direction::Left) => true,
        _ => false,
    }
}

pub fn same_direction(d1: &Direction, d2: &Direction) -> (r: bool)
    ensures
        r == (*d1 == *d2),
{
    *d1 == *d2
}

} // verus!
