//! What an update asks of the host.

use vstd::prelude::*;

verus! {

/// A follow-up for the host to carry out after an update; most updates ask
/// for nothing.
#[derive(Debug, Clone, Copy, PartialEq, Eq, Structural)]
pub enum Cmd {
    /// Nothing to do.
    Nothing,
    /// Fetch what belongs to the record at this page and row of a tab.
    FetchRecordDetail { page_index: usize, row_index: usize },
}

impl Cmd {
    /// The empty command.
    pub fn none() -> (cmd: Cmd)
        ensures
            cmd == Cmd::Nothing,
    {
        Cmd::Nothing
    }

    /// Tells whether the host has nothing to do.
    pub fn is_none(&self) -> (empty: bool)
        ensures
            empty == (*self == Cmd::Nothing),
    {
        match self {
            Cmd::Nothing => true,
            Cmd::FetchRecordDetail { .. } => false,
        }
    }
}

} // verus!
