//! The application entry type and its execution modes.

use vstd::prelude::*;

verus! {

/// How the run obtains its spreadsheet: from a remote mailbox or from a
/// local file path.
#[derive(Clone, Copy, Debug, PartialEq, Eq, Structural)]
pub enum AppMode {
    Remote,
    Local,
}

/// Handle for one ingestion run.
pub struct App;

impl App {
    pub fn new() -> Self {
        App {}
    }
}

} // verus!
