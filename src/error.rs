use vstd::prelude::*;

verus! {

/// Every failure the engine reports.
#[derive(Clone, Copy, Debug, PartialEq, Eq, Structural)]
pub enum GameError {
    /// The first character of a label is not an ASCII letter.
    InvalidColumn,
    /// The rest of a label is not a 1-based decimal row number.
    InvalidRow,
    /// A command line does not hold exactly three words.
    MalformedCommand,
    /// A row index lies outside the board.
    RowOutOfRange,
    /// A column index lies outside the board.
    ColOutOfRange,
    /// A unit record could not be turned into a unit.
    CatalogLoadFailure,
    /// The cancellation channel could not be set up.
    CancellationSetupFailure,
}

} // verus!
