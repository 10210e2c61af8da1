//! Failures a shell command reports back to its caller.

use vstd::prelude::*;

verus! {

/// The two hard failures a creation command can surface.
///
/// Soft failures (a scale-factor read during a resize tick, an un-minimize
/// before focusing) never become a `CommandError`: the resize path falls
/// back to a scale of one, and focusing proceeds regardless.
#[derive(Debug, PartialEq, Eq)]
pub enum CommandError {
    /// The main window handle is missing: fatal to the triggering command.
    WindowNotFound(String),
    /// A host toolkit call failed (size query, view attach, window build or
    /// focus); carries the host's diagnostic message.
    HostOperationFailed(String),
}

impl CommandError {
    /// The diagnostic message carried by the error.
    pub fn detail(&self) -> (m: &String)
        ensures
            (self matches CommandError::WindowNotFound(d) ==> m@ == d@),
            (self matches CommandError::HostOperationFailed(d) ==> m@ == d@),
    {
        match self {
            CommandError::WindowNotFound(d) => d,
            CommandError::HostOperationFailed(d) => d,
        }
    }
}

} // verus!
