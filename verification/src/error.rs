//! Errors reported to control code.

use vstd::prelude::*;

verus! {

/// Errors that can occur when sending a command to the audio thread.
#[derive(Debug, Clone, Copy, PartialEq, Eq, Structural)]
#[non_exhaustive]
pub enum CommandError {
    /// Could not add a sound because the command queue is full.
    CommandQueueFull,
    /// Could not add a sound because a thread panicked while using the command queue.
    MutexPoisoned,
}

impl CommandError {
    /// The text shown to a user for each variant.
    pub open spec fn message_text(self) -> Seq<char> {
        match self {
            CommandError::CommandQueueFull => {
                "Could not add a sound because the command queue is full."@
            },
            CommandError::MutexPoisoned => {
                "Could not add a sound because a thread panicked while using the command queue."@
            },
        }
    }

    /// Returns the human-readable description of the error.
    pub fn message(&self) -> (text: String)
        ensures
            text@ == self.message_text(),
    {
        match self {
            CommandError::CommandQueueFull => {
                "Could not add a sound because the command queue is full.".to_owned()
            },
            CommandError::MutexPoisoned => {
                "Could not add a sound because a thread panicked while using the command queue.".to_owned()
            },
        }
    }
}

/// An error that occurs when trying to modify something
/// whose command queue is full.
#[derive(Debug, Clone, Copy, PartialEq, Eq, Hash, Structural)]
pub struct CommandQueueFull;

impl CommandQueueFull {
    /// The text shown to a user.
    pub open spec fn message_text() -> Seq<char> {
        "Cannot send a command to the audio renderer because the command queue is full"@
    }

    /// Returns the human-readable description of the error.
    pub fn message(&self) -> (text: String)
        ensures
            text@ == Self::message_text(),
    {
        "Cannot send a command to the audio renderer because the command queue is full".to_owned()
    }
}

} // verus!
