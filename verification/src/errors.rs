//! The error taxonomy for device inspection and benchmarking. Every error
//! is terminal for the operation in progress; none is retried. Each
//! variant renders to a single descriptive console line via `message`.

use vstd::prelude::*;
use vstd::string::*;

verus! {

/// The device could not be inspected: either it would not open, or no
/// recognizable partition table was found on it.
#[derive(Debug)]
pub enum DeviceError {
    CannotOpen { path: String },
    NoPartitionTable { path: String },
}

impl DeviceError {
    /// The console line reported for this error.
    pub fn message(&self) -> (r: String)
        ensures
            match self {
                DeviceError::CannotOpen { path } => r@ == "could not open disk at path "@ + path@
                    + " (could be missing root privileges)"@,
                DeviceError::NoPartitionTable { path } => r@ == "could not find GPT on drive "@
                    + path@,
            },
    {
        match self {
            DeviceError::CannotOpen { path } => "could not open disk at path ".to_owned().concat(
                path.as_str(),
            ).concat(" (could be missing root privileges)"),
            DeviceError::NoPartitionTable { path } => "could not find GPT on drive "
                .to_owned()
                .concat(path.as_str()),
        }
    }
}

/// A file operation failed during a benchmark run: the run aborts without
/// producing partial statistics.
#[derive(Clone, Copy, Debug, PartialEq, Eq, Structural)]
pub enum StorageError {
    CreateFailed,
    WriteFailed,
    FlushFailed,
    DeleteFailed,
}

impl StorageError {
    /// The console line reported for this error.
    pub fn message(&self) -> (r: String)
        ensures
            match self {
                StorageError::CreateFailed => r@
                    == "Failed to create file in directory. Make sure the application has access."@,
                StorageError::WriteFailed => r@ == "Error writing to file"@,
                StorageError::FlushFailed => r@ == "Error saving to file"@,
                StorageError::DeleteFailed => r@ == "Failed to delete file"@,
            },
    {
        match self {
            StorageError::CreateFailed => {
                "Failed to create file in directory. Make sure the application has access."
                    .to_owned()
            },
            StorageError::WriteFailed => "Error writing to file".to_owned(),
            StorageError::FlushFailed => "Error saving to file".to_owned(),
            StorageError::DeleteFailed => "Failed to delete file".to_owned(),
        }
    }
}

} // verus!
