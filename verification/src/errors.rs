//! Error kinds surfaced by the launcher library.

use vstd::prelude::*;

verus! {

/// An error raised while building or supervising a launched process.
///
/// `ToolMissing` reports that a required host-side sandboxing binary is
/// absent; the carried message names the tool and, where one exists, an
/// install hint. `SpawnFailed` reports that the operating system refused to
/// create the process. `WaitFailed` reports an OS-level failure while
/// awaiting process termination.
#[derive(Debug, PartialEq, Clone)]
pub enum LaunchError {
    ToolMissing(String),
    SpawnFailed(String),
    WaitFailed(String),
}

impl LaunchError {
    /// A human-readable description of the error, for the caller's
    /// diagnostic stream.
    pub fn message(&self) -> (r: String)
        ensures
            r@ == self.message_view(),
    {
        match self {
            LaunchError::ToolMissing(m) => m.clone(),
            LaunchError::SpawnFailed(m) => String::from_str("Spawn failed: ").concat(m.as_str()),
            LaunchError::WaitFailed(m) => String::from_str("Wait failed: ").concat(m.as_str()),
        }
    }

    /// The text that `message` returns.
    pub open spec fn message_view(&self) -> Seq<char> {
        match self {
            LaunchError::ToolMissing(m) => m@,
            LaunchError::SpawnFailed(m) => "Spawn failed: "@ + m@,
            LaunchError::WaitFailed(m) => "Wait failed: "@ + m@,
        }
    }
}

} // verus!
