//! Focus state machine: which of the three panels currently receives input.

use vstd::prelude::*;

verus! {

/// One of the three on-screen panels. Exactly one is active at a time.
#[derive(Clone, Copy, Debug, PartialEq, Eq, Structural)]
pub enum Board {
    /// The diagram panel with the circle-of-fifths chart.
    Main,
    /// The detail panel showing the selected item's info text.
    MenuInfo,
    /// The list panel with the selectable menu items.
    MenuSelect,
}

/// Holds the active panel. Fully connected: any panel can be made active
/// from any other in one step; there is no terminal state.
#[derive(Clone, Copy, Debug, PartialEq, Eq, Structural)]
pub struct BoardState {
    pub current_board: Board,
}

impl BoardState {
    /// The list panel has focus on the first frame, so that a selection
    /// exists to query.
    pub fn new() -> (s: Self)
        ensures
            s.current_board == Board::MenuSelect,
    {
        BoardState { current_board: Board::MenuSelect }
    }

    /// Sets the active panel unconditionally; idempotent when called with
    /// the panel that is already active.
    pub fn select_board(&mut self, board: Board)
        ensures
            final(self).current_board == board,
    {
        self.current_board = board;
    }

    /// Returns the active panel; a pure read.
    pub fn current(&self) -> (b: Board)
        ensures
            b == self.current_board,
    {
        self.current_board
    }
}

} // verus!
