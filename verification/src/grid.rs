use crate::action::ActionView;
use vstd::prelude::*;

verus! {

/// The mathematical value of a [`crate::state::State`]: cursor row and
/// column, and the rows of cells from the top.
#[verifier::ext_equal]
pub struct Grid {
    pub row: nat,
    pub col: nat,
    pub rows: Seq<Seq<char>>,
}

/// `rows` followed by as many empty rows as it takes to hold `n` rows.
pub open spec fn with_rows(rows: Seq<Seq<char>>, n: nat) -> Seq<Seq<char>> {
    if rows.len() >= n {
        rows
    } else {
        rows + Seq::new((n - rows.len()) as nat, |i: int| Seq::<char>::empty())
    }
}

/// `cells` followed by as many spaces as it takes to hold `n` cells.
pub open spec fn with_cells(cells: Seq<char>, n: nat) -> Seq<char> {
    if cells.len() >= n {
        cells
    } else {
        cells + Seq::new((n - cells.len()) as nat, |i: int| ' ')
    }
}

/// `cells` cut down, or padded with spaces, to exactly `n` cells.
pub open spec fn resized(cells: Seq<char>, n: nat) -> Seq<char> {
    if n <= cells.len() {
        cells.subrange(0, n as int)
    } else {
        with_cells(cells, n)
    }
}

/// The parameter at `index`, or `default` where `params` has none there.
pub open spec fn param_or(params: Seq<i64>, index: int, default: int) -> int {
    if 0 <= index < params.len() {
        params[index] as int
    } else {
        default
    }
}

/// `v`, or zero where `v` is negative.
pub open spec fn floor_zero(v: int) -> nat {
    if v > 0 {
        v as nat
    } else {
        0
    }
}

impl Grid {
    /// The grid of a new session: cursor at the origin, no rows.
    pub open spec fn empty() -> Grid {
        Grid { row: 0, col: 0, rows: Seq::empty() }
    }

    /// Whether cursor and row count are within what a `usize` can index.
    pub open spec fn fits(self) -> bool {
        &&& self.row <= usize::MAX
        &&& self.col <= usize::MAX
        &&& self.rows.len() <= usize::MAX
    }

    /// Writes `c` at the cursor and moves the cursor one column right. Rows
    /// and cells that are missing up to the cursor are created first, the
    /// cells as spaces.
    pub open spec fn print(self, c: char) -> Grid {
        let rows = with_rows(self.rows, self.row + 1);
        let line = with_cells(rows[self.row as int], self.col + 1).update(self.col as int, c);
        Grid { row: self.row, col: self.col + 1, rows: rows.update(self.row as int, line) }
    }

    /// Backspace (8) moves the cursor one column left and stops at column
    /// zero; line feed (10) moves it one row down and keeps the column;
    /// carriage return (13) moves it to column zero. Any other byte does
    /// nothing.
    pub open spec fn execute(self, byte: u8) -> Grid {
        if byte == 8 {
            Grid { col: floor_zero(self.col - 1), ..self }
        } else if byte == 10 {
            Grid { row: self.row + 1, ..self }
        } else if byte == 13 {
            Grid { col: 0, ..self }
        } else {
            self
        }
    }

    /// `H` places the cursor at the one-based row and column of the first
    /// two parameters, each 1 where absent and none going below the first
    /// row or column. `C` moves the cursor right by the first parameter, 1
    /// where absent; a negative parameter moves it left, down to column zero.
    /// `X` creates the rows up to the cursor's and makes the cursor's row
    /// exactly as long as the cursor's column. Any other final character does
    /// nothing.
    pub open spec fn csi_dispatch(self, params: Seq<i64>, c: char) -> Grid {
        if c == 'H' {
            Grid {
                row: floor_zero(param_or(params, 0, 1) - 1),
                col: floor_zero(param_or(params, 1, 1) - 1),
                ..self
            }
        } else if c == 'X' {
            let rows = with_rows(self.rows, self.row + 1);
            Grid { rows: rows.update(self.row as int, resized(rows[self.row as int], self.col)), ..self }
        } else if c == 'C' {
            Grid { col: floor_zero(self.col + param_or(params, 0, 1)), ..self }
        } else {
            self
        }
    }

    /// The grid after `action`. `Close` is no grid action and changes nothing.
    pub open spec fn apply(self, action: ActionView) -> Grid {
        match action {
            ActionView::Print(c) => self.print(c),
            ActionView::Execute(byte) => self.execute(byte),
            ActionView::DispatchCSI(params, _, _, c) => self.csi_dispatch(params, c),
            ActionView::Close => self,
        }
    }

    /// Whether the grid that `action` leads to is one the machine can hold.
    pub open spec fn admits(self, action: ActionView) -> bool {
        self.apply(action).fits()
    }

    /// The grid after `action` where the machine can hold it, and the grid
    /// unchanged where it cannot.
    pub open spec fn apply_checked(self, action: ActionView) -> Grid {
        if self.admits(action) {
            self.apply(action)
        } else {
            self
        }
    }

    /// The grid after each of `actions` in turn, first to last.
    pub open spec fn apply_all(self, actions: Seq<ActionView>) -> Grid
        decreases actions.len(),
    {
        if actions.len() == 0 {
            self
        } else {
            self.apply(actions[0]).apply_all(actions.drop_first())
        }
    }

    /// Whether the machine can hold the grid after each of `actions` in
    /// turn.
    pub open spec fn admits_all(self, actions: Seq<ActionView>) -> bool
        decreases actions.len(),
    {
        actions.len() == 0 || (self.admits(actions[0]) && self.apply(actions[0]).admits_all(
            actions.drop_first(),
        ))
    }

    /// The grid after each of `actions` in turn, leaving out those whose
    /// result the machine cannot hold.
    pub open spec fn apply_all_checked(self, actions: Seq<ActionView>) -> Grid
        decreases actions.len(),
    {
        if actions.len() == 0 {
            self
        } else {
            self.apply_checked(actions[0]).apply_all_checked(actions.drop_first())
        }
    }
}

/// Where the machine can hold every grid on the way, nothing is left out.
pub proof fn lemma_checked_is_exact(grid: Grid, actions: Seq<ActionView>)
    requires
        grid.admits_all(actions),
    ensures
        grid.apply_all_checked(actions) == grid.apply_all(actions),
    decreases actions.len(),
{
    if actions.len() > 0 {
        lemma_checked_is_exact(grid.apply(actions[0]), actions.drop_first());
    }
}

/// After a character is printed, the cell that the cursor stood on exists
/// and holds the character.
pub proof fn lemma_print_fills_cell(grid: Grid, c: char)
    ensures
        grid.print(c).rows.len() > grid.row,
        grid.print(c).rows[grid.row as int].len() > grid.col,
        grid.print(c).rows[grid.row as int][grid.col as int] == c,
{
}

/// The action that prints `c`.
pub open spec fn printing(c: char) -> ActionView {
    ActionView::Print(c)
}

/// The actions that print each character of `text` in turn.
pub open spec fn prints(text: Seq<char>) -> Seq<ActionView> {
    text.map_values(|c: char| printing(c))
}

/// `cells` with `text` written over it from column `at` on; the cells that
/// are missing up to `at` are spaces.
pub open spec fn overwritten(cells: Seq<char>, at: nat, text: Seq<char>) -> Seq<char> {
    Seq::new(
        if cells.len() >= at + text.len() {
            cells.len()
        } else {
            at + text.len()
        },
        |j: int|
            if at <= j < at + text.len() {
                text[j - at]
            } else if j < cells.len() {
                cells[j]
            } else {
                ' '
            },
    )
}

/// Printing the characters of `text` with nothing in between moves the
/// cursor `text.len()` columns to the right within its row, and that row
/// then holds the characters of `text`, in order, from the column where the
/// cursor stood. No other row changes.
pub proof fn lemma_prints_in_order(grid: Grid, text: Seq<char>)
    ensures
        grid.apply_all(prints(text)).row == grid.row,
        grid.apply_all(prints(text)).col == grid.col + text.len(),
        text.len() == 0 ==> grid.apply_all(prints(text)).rows == grid.rows,
        text.len() > 0 ==> grid.apply_all(prints(text)).rows == with_rows(
            grid.rows,
            grid.row + 1,
        ).update(
            grid.row as int,
            overwritten(with_rows(grid.rows, grid.row + 1)[grid.row as int], grid.col, text),
        ),
        grid.fits() && grid.row < usize::MAX && grid.col + text.len() <= usize::MAX
            ==> grid.admits_all(prints(text)),
    decreases text.len(),
{
    if text.len() > 0 {
        let next = grid.print(text[0]);
        let rest = text.drop_first();
        assert(prints(text).drop_first() =~= prints(rest));
        assert(prints(text)[0] == ActionView::Print(text[0]));
        lemma_prints_in_order(next, rest);
        let rows = with_rows(grid.rows, grid.row + 1);
        let cells = rows[grid.row as int];
        let target = overwritten(cells, grid.col, text);
        assert(next.rows[grid.row as int] == with_cells(cells, grid.col + 1).update(
            grid.col as int,
            text[0],
        ));
        if rest.len() == 0 {
            assert(next.rows[grid.row as int] =~= target);
        } else {
            assert(with_rows(next.rows, next.row + 1) =~= next.rows);
            assert(overwritten(next.rows[grid.row as int], next.col, rest) =~= target);
        }
        assert(grid.apply_all(prints(text)).rows =~= rows.update(grid.row as int, target));
    }
}

/// Printed into a new grid, `text` is the first row, and the cursor's column
/// is the number of characters printed.
pub proof fn lemma_prints_from_empty(text: Seq<char>)
    requires
        text.len() > 0,
    ensures
        Grid::empty().apply_all(prints(text)) == (Grid {
            row: 0,
            col: text.len(),
            rows: seq![text],
        }),
{
    lemma_prints_in_order(Grid::empty(), text);
    let rows = with_rows(Grid::empty().rows, 1);
    assert(overwritten(rows[0], 0, text) =~= text);
    assert(rows.update(0, text) =~= seq![text]);
}

/// Cursor position is absolute: where `H` puts the cursor depends on the
/// parameters alone, not on where the cursor stood, and no row changes.
pub proof fn lemma_cursor_position_is_absolute(a: Grid, b: Grid, params: Seq<i64>)
    ensures
        a.csi_dispatch(params, 'H').row == b.csi_dispatch(params, 'H').row,
        a.csi_dispatch(params, 'H').col == b.csi_dispatch(params, 'H').col,
        a.csi_dispatch(params, 'H').rows == a.rows,
{
}

/// Backspace at column zero changes nothing.
pub proof fn lemma_backspace_stops_at_margin(grid: Grid)
    requires
        grid.col == 0,
    ensures
        grid.execute(8) == grid,
{
}

/// Erase cuts or pads the cursor's row to exactly the cursor's column: what
/// stood before the cursor stays, what stood from the cursor on is gone. The
/// cursor and the other rows stay as they are.
pub proof fn lemma_erase_cuts_row(grid: Grid, params: Seq<i64>)
    ensures
        ({
            let after = grid.csi_dispatch(params, 'X');
            let before = with_rows(grid.rows, grid.row + 1);
            &&& after.row == grid.row
            &&& after.col == grid.col
            &&& after.rows.len() == before.len()
            &&& after.rows[grid.row as int].len() == grid.col
            &&& forall|j: int|
                0 <= j < grid.col && j < before[grid.row as int].len() ==> after.rows[grid.row as int][j]
                    == before[grid.row as int][j]
            &&& forall|j: int|
                before[grid.row as int].len() <= j < grid.col ==> after.rows[grid.row as int][j] == ' '
            &&& forall|i: int|
                0 <= i < before.len() && i != grid.row ==> after.rows[i] == before[i]
        }),
{
}

} // verus!
