use crate::handlers::PtyHandler;
use crate::interpreter::{emitted, Interpreter};
use crate::grid::Grid;
use crate::state::{text_of, State};
use crate::update::try_update_all;
use vstd::prelude::*;

verus! {

/// The size of a terminal in columns and rows.
pub struct TerminalConfig {
    pub cols: u32,
    pub rows: u32,
}

impl Default for TerminalConfig {
    fn default() -> (config: Self)
        ensures
            config.cols == 80,
            config.rows == 24,
    {
        TerminalConfig { cols: 80, rows: 24 }
    }
}

/// An interpreter and the grid that it writes to, in one piece: bytes go in,
/// lines of text come out.
pub struct Terminal {
    parser: Interpreter,
    state: State,
}

impl Terminal {
    /// The bytes sent so far, oldest first.
    pub closed spec fn history(&self) -> Seq<u8> {
        self.parser.history()
    }

    /// The grid as it is now.
    pub closed spec fn grid(&self) -> Grid {
        self.state@
    }

    /// A terminal that has received nothing, with an empty grid. The grid
    /// grows with what is written, so the size in `_config` sets no limit.
    pub fn new(_config: &TerminalConfig) -> (terminal: Self)
        ensures
            terminal.history() == Seq::<u8>::empty(),
            terminal.grid() == Grid::empty(),
    {
        Terminal { parser: Interpreter::new(), state: State::new() }
    }

    /// Decodes one more byte and applies to the grid the actions that it
    /// completes, in order. An action whose result the machine cannot hold
    /// is left out.
    pub fn send(&mut self, byte: u8)
        ensures
            final(self).history() == old(self).history().push(byte),
            final(self).grid() == old(self).grid().apply_all_checked(
                emitted(old(self).history(), byte),
            ),
    {
        let mut handler = PtyHandler { tx: Vec::new() };
        assert(handler.tx.deep_view() =~= Seq::empty());
        self.parser.advance(&mut handler, byte);
        assert(handler.tx.deep_view() =~= emitted(old(self).history(), byte));
        try_update_all(&mut self.state, &handler.tx);
    }

    /// The rows of the grid as strings, top row first.
    pub fn lines(&self) -> (lines: Vec<String>)
        ensures
            text_of(lines@) == self.grid().rows,
    {
        self.state.text()
    }
}

} // verus!
