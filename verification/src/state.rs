use crate::grid::{floor_zero, resized, with_cells, with_rows, Grid};
use vstd::prelude::*;

verus! {

/// A cursor position: `x` is the column and `y` the row, both from zero.
#[derive(Clone, Debug, PartialEq)]
pub struct Position {
    pub x: usize,
    pub y: usize,
}

impl Default for Position {
    fn default() -> (position: Self)
        ensures
            position.x == 0,
            position.y == 0,
    {
        Position { x: 0, y: 0 }
    }
}

/// The character grid: the cursor and the rows written so far.
///
/// Rows and cells come into being when something is written at them; a row
/// may be shorter than the cursor's column and the grid may hold fewer rows
/// than the cursor's row.
#[derive(Clone, Debug, PartialEq)]
pub struct State {
    pub cursor: Position,
    pub lines: Vec<Vec<char>>,
}

/// The cells of each row of `lines`.
pub open spec fn rows_of(lines: Seq<Vec<char>>) -> Seq<Seq<char>> {
    Seq::new(lines.len(), |i: int| lines[i]@)
}

impl View for State {
    type V = Grid;

    open spec fn view(&self) -> Grid {
        Grid { row: self.cursor.y as nat, col: self.cursor.x as nat, rows: rows_of(self.lines@) }
    }
}

impl Default for State {
    fn default() -> (state: Self)
        ensures
            state@ == Grid::empty(),
    {
        State::new()
    }
}

/// The zero-based index that the one-based parameter `p` stands for; values
/// below 1 stand for the first row or column.
fn one_based(p: i64) -> (index: usize)
    requires
        floor_zero(p - 1) <= usize::MAX,
    ensures
        index == floor_zero(p - 1),
{
    if p >= 1 {
        (p - 1) as usize
    } else {
        0
    }
}

impl State {
    /// A grid with the cursor at the origin and no rows.
    pub fn new() -> (state: Self)
        ensures
            state@ == Grid::empty(),
    {
        let state = Self { cursor: Position { x: 0, y: 0 }, lines: vec![] };
        assert(state@.rows =~= Seq::empty());
        state
    }

    /// Appends empty rows until the cursor's row exists.
    fn reach_row(&mut self)
        requires
            old(self).cursor.y < usize::MAX,
        ensures
            final(self).cursor == old(self).cursor,
            final(self).cursor.y < final(self).lines.len(),
            final(self)@.rows == with_rows(old(self)@.rows, old(self)@.row + 1),
    {
        let ghost before = self@.rows;
        while self.cursor.y >= self.lines.len()
            invariant
                self.cursor == old(self).cursor,
                self.cursor.y < usize::MAX,
                before.len() <= self.lines.len(),
                self.lines.len() <= before.len() || self.lines.len() <= self.cursor.y + 1,
                forall|i: int| 0 <= i < before.len() ==> self.lines@[i]@ == before[i],
                forall|i: int| before.len() <= i < self.lines.len() ==> self.lines@[i]@.len() == 0,
            decreases self.cursor.y + 1 - self.lines.len(),
        {
            self.lines.push(vec![]);
        }
        assert(self@.rows =~~= with_rows(before, self@.row + 1));
    }

    /// Appends spaces to the cursor's row until the cursor's cell exists.
    fn reach_cell(&mut self)
        requires
            old(self).cursor.x < usize::MAX,
            old(self).cursor.y < old(self).lines.len(),
        ensures
            final(self).cursor == old(self).cursor,
            final(self).cursor.y < final(self).lines.len(),
            final(self).cursor.x < final(self).lines[old(self).cursor.y as int].len(),
            final(self)@.rows == old(self)@.rows.update(
                old(self)@.row as int,
                with_cells(old(self)@.rows[old(self)@.row as int], old(self)@.col + 1),
            ),
    {
        let ghost before = self@.rows;
        let ghost cells = before[self.cursor.y as int];
        while self.cursor.x >= self.lines[self.cursor.y].len()
            invariant
                self.cursor == old(self).cursor,
                self.cursor.x < usize::MAX,
                self.lines.len() == before.len(),
                self.cursor.y < self.lines.len(),
                forall|i: int| 0 <= i < before.len() && i != self.cursor.y ==> self.lines@[i]@ == before[i],
                cells.len() <= self.lines@[self.cursor.y as int]@.len(),
                self.lines@[self.cursor.y as int]@.len() <= cells.len()
                    || self.lines@[self.cursor.y as int]@.len() <= self.cursor.x + 1,
                forall|j: int| 0 <= j < cells.len() ==> self.lines@[self.cursor.y as int]@[j] == cells[j],
                forall|j: int|
                    cells.len() <= j < self.lines@[self.cursor.y as int]@.len()
                        ==> self.lines@[self.cursor.y as int]@[j] == ' ',
            decreases self.cursor.x + 1 - self.lines@[self.cursor.y as int]@.len(),
        {
            self.lines[self.cursor.y].push(' ');
        }
        assert(self.lines@[self.cursor.y as int]@ =~= with_cells(cells, self@.col + 1));
        assert(self@.rows =~= before.update(self@.row as int, with_cells(cells, self@.col + 1)));
    }

    /// Writes `c` at the cursor, growing the grid up to the cursor first,
    /// and moves the cursor one column right.
    pub fn print(&mut self, c: char)
        requires
            old(self)@.print(c).fits(),
        ensures
            final(self)@ == old(self)@.print(c),
    {
        self.reach_row();
        self.reach_cell();
        let ghost rows = self@.rows;
        self.lines[self.cursor.y][self.cursor.x] = c;
        assert(self@.rows =~= rows.update(
            self@.row as int,
            rows[self@.row as int].update(self@.col as int, c),
        ));
        self.cursor.x += 1;
    }

    /// Carries out a C0 control byte: backspace, line feed or carriage
    /// return. Every other byte leaves the grid as it is.
    pub fn execute(&mut self, byte: u8)
        requires
            old(self)@.execute(byte).fits(),
        ensures
            final(self)@ == old(self)@.execute(byte),
    {
        match byte {
            8 => {
                if self.cursor.x > 0 {
                    self.cursor.x -= 1;
                }
            },
            10 => {
                self.cursor.y += 1;
            },
            13 => {
                self.cursor.x = 0;
            },
            _ => {},
        }
    }

    /// Carries out a control sequence with final character `c`: cursor
    /// position (`H`), cursor forward (`C`) or erase (`X`). Intermediates and
    /// the ignore flag have no influence, and any other final character
    /// leaves the grid as it is.
    pub fn csi_dispatch(&mut self, params: &[i64], intermediates: &[u8], ignore: bool, c: char)
        requires
            old(self)@.csi_dispatch(params@, c).fits(),
        ensures
            final(self)@ == old(self)@.csi_dispatch(params@, c),
    {
        match c {
            'H' => {
                let y: usize = if params.len() >= 1 {
                    one_based(params[0])
                } else {
                    0
                };
                let x: usize = if params.len() >= 2 {
                    one_based(params[1])
                } else {
                    0
                };
                self.cursor.y = y;
                self.cursor.x = x;
            },
            'X' => {
                self.reach_row();
                let ghost rows = self@.rows;
                self.lines[self.cursor.y].resize(self.cursor.x, ' ');
                assert(self.lines@[self.cursor.y as int]@ =~= resized(rows[self@.row as int], self@.col));
                assert(self@.rows =~= old(self)@.csi_dispatch(params@, c).rows);
            },
            'C' => {
                let amount: i64 = if params.len() >= 1 {
                    params[0]
                } else {
                    1
                };
                let target: i128 = self.cursor.x as i128 + amount as i128;
                if target > 0 {
                    self.cursor.x = target as usize;
                } else {
                    self.cursor.x = 0;
                }
            },
            _ => {},
        }
    }

    /// The rows as strings, top row first.
    pub fn text(&self) -> (lines: Vec<String>)
        ensures
            text_of(lines@) == self@.rows,
    {
        let mut lines: Vec<String> = Vec::new();
        let mut i: usize = 0;
        while i < self.lines.len()
            invariant
                i <= self.lines.len(),
                lines.len() == i,
                forall|k: int| 0 <= k < i ==> lines@[k]@ == self.lines@[k]@,
            decreases self.lines.len() - i,
        {
            lines.push(string_of(&self.lines[i]));
            i += 1;
        }
        assert(text_of(lines@) =~= self@.rows);
        lines
    }

    /// The grid as it is now, for a renderer to draw.
    pub fn snapshot(&self) -> (snapshot: Snapshot)
        ensures
            snapshot@ == self@,
    {
        Snapshot { lines: self.text(), cursor: Position { x: self.cursor.x, y: self.cursor.y } }
    }
}

/// `String::push` appends one character to the end of the string.
pub assume_specification[ String::push ](s: &mut String, ch: char)
    ensures
        final(s)@ == old(s)@.push(ch),
;

/// The string of the characters of `cells`, in order.
fn string_of(cells: &Vec<char>) -> (line: String)
    ensures
        line@ == cells@,
{
    let mut line = String::new();
    let mut j: usize = 0;
    while j < cells.len()
        invariant
            j <= cells.len(),
            line@ == cells@.subrange(0, j as int),
        decreases cells.len() - j,
    {
        line.push(cells[j]);
        j += 1;
        assert(line@ =~= cells@.subrange(0, j as int));
    }
    assert(cells@.subrange(0, j as int) =~= cells@);
    line
}

/// The characters of each string of `lines`.
pub open spec fn text_of(lines: Seq<String>) -> Seq<Seq<char>> {
    Seq::new(lines.len(), |i: int| lines[i]@)
}

/// A copy of the grid for a renderer: each row as a string, and the cursor.
/// It shares nothing with the state it was taken from.
#[derive(Clone, Debug, PartialEq)]
pub struct Snapshot {
    pub lines: Vec<String>,
    pub cursor: Position,
}

impl View for Snapshot {
    type V = Grid;

    open spec fn view(&self) -> Grid {
        Grid { row: self.cursor.y as nat, col: self.cursor.x as nat, rows: text_of(self.lines@) }
    }
}

} // verus!
