use vstd::prelude::*;

verus! {

/// The ways a publish run can fail.
#[derive(Debug, Clone, PartialEq, Eq)]
pub enum FatalError {
    /// Spawning or waiting on a process failed; carries the system's message.
    IOError(String),
    /// The project configuration file could not be read as a document.
    InvalidCargoFileFormat,
    /// The settings table holds a key outside the recognized set.
    UnknownCargoFileKey(String),
    /// A command's captured output was not valid UTF-8.
    FromUtf8Error,
    /// A command ran and exited with a failure status; carries its name.
    CommandFailed(String),
}

impl FatalError {
    /// The one-line description of the failure.
    pub fn message(&self) -> (r: String)
        ensures
            r@ == match self {
                FatalError::IOError(m) => m@,
                FatalError::InvalidCargoFileFormat => "Invalid cargo file format"@,
                FatalError::UnknownCargoFileKey(_) => "Unknown cargo key found"@,
                FatalError::FromUtf8Error => "invalid utf-8 sequence in command output"@,
                FatalError::CommandFailed(c) => "Command failed: "@ + c@,
            },
    {
        match self {
            FatalError::IOError(m) => m.clone(),
            FatalError::InvalidCargoFileFormat => String::from_str("Invalid cargo file format"),
            FatalError::UnknownCargoFileKey(_) => String::from_str("Unknown cargo key found"),
            FatalError::FromUtf8Error => String::from_str("invalid utf-8 sequence in command output"),
            FatalError::CommandFailed(c) => String::from_str("Command failed: ").concat(c.as_str()),
        }
    }
}

} // verus!
