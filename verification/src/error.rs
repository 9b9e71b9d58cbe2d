//! Failure kinds of temporary-file creation, and how failures reported by the
//! operating system map onto them.

use vstd::prelude::*;

verus! {

/// The ways in which creating a temporary file can fail.
#[derive(Clone, Copy, Debug, PartialEq, Eq, Structural)]
pub enum TempFileError {
    /// The name hint cannot be used as a platform-native name.
    InvalidName,
    /// The operating system had no descriptor, memory or storage left to give.
    ResourceExhausted,
    /// Any other failure reported by the operating system.
    IoFailure,
}

impl TempFileError {
    /// What the error says, in words.
    pub open spec fn message_view(self) -> Seq<char> {
        match self {
            TempFileError::InvalidName => "the name cannot be used for a temporary file"@,
            TempFileError::ResourceExhausted => "no descriptor, memory or storage is left"@,
            TempFileError::IoFailure => "the operating system reported a failure"@,
        }
    }

    /// Says in words what went wrong.
    pub fn message(&self) -> (text: &'static str)
        ensures
            text@ == self.message_view(),
    {
        match self {
            TempFileError::InvalidName => "the name cannot be used for a temporary file",
            TempFileError::ResourceExhausted => "no descriptor, memory or storage is left",
            TempFileError::IoFailure => "the operating system reported a failure",
        }
    }
}

/// Error number for "out of memory".
pub const ENOMEM: i32 = 12;

/// Error number for "too many open files in the system".
pub const ENFILE: i32 = 23;

/// Error number for "too many open files in this process".
pub const EMFILE: i32 = 24;

/// Error number for "no space left on device".
pub const ENOSPC: i32 = 28;

/// Why the operating system refused to create or open something.
///
/// This is what the library reads of an operating-system error. The driver
/// converts whatever error value its platform gave it into one of these.
#[derive(Clone, Copy, Debug, PartialEq, Eq, Structural)]
pub enum OsFailure {
    /// The per-process or system-wide descriptor table is full.
    DescriptorLimit,
    /// No memory was available.
    OutOfMemory,
    /// The device holding the file is full.
    StorageFull,
    /// A storage quota was reached.
    QuotaExceeded,
    /// Anything else.
    Other,
}

impl OsFailure {
    /// The failure that an error number of a Unix-like system stands for.
    pub open spec fn of_errno(errno: int) -> OsFailure {
        if errno == EMFILE || errno == ENFILE {
            OsFailure::DescriptorLimit
        } else if errno == ENOMEM {
            OsFailure::OutOfMemory
        } else if errno == ENOSPC {
            OsFailure::StorageFull
        } else {
            OsFailure::Other
        }
    }

    /// The failure itself where it says what ran out, and else what the
    /// error number says, if there is one.
    pub open spec fn refined_by(self, errno: Option<i32>) -> OsFailure {
        match errno {
            Some(n) if self == OsFailure::Other => OsFailure::of_errno(n as int),
            _ => self,
        }
    }

    /// Whether the failure means that a resource ran out.
    pub open spec fn exhausted(self) -> bool {
        self != OsFailure::Other
    }

    /// The error that `create` reports for this failure.
    pub open spec fn error(self) -> TempFileError {
        if self.exhausted() {
            TempFileError::ResourceExhausted
        } else {
            TempFileError::IoFailure
        }
    }

    /// Reads an error number of a Unix-like system.
    pub fn from_errno(errno: i32) -> (failure: OsFailure)
        ensures
            failure == OsFailure::of_errno(errno as int),
    {
        if errno == EMFILE || errno == ENFILE {
            OsFailure::DescriptorLimit
        } else if errno == ENOMEM {
            OsFailure::OutOfMemory
        } else if errno == ENOSPC {
            OsFailure::StorageFull
        } else {
            OsFailure::Other
        }
    }

    /// Looks at the error number of a Unix-like system where the failure
    /// itself does not say what ran out.
    pub fn or_errno(self, errno: Option<i32>) -> (failure: OsFailure)
        ensures
            failure == self.refined_by(errno),
    {
        match errno {
            Some(n) => match self {
                OsFailure::Other => OsFailure::from_errno(n),
                _ => self,
            },
            None => self,
        }
    }

    /// Tells whether a resource ran out.
    pub fn is_exhaustion(&self) -> (b: bool)
        ensures
            b == self.exhausted(),
    {
        match self {
            OsFailure::Other => false,
            _ => true,
        }
    }

    /// Maps the failure to the error kind that creation reports.
    pub fn to_error(&self) -> (e: TempFileError)
        ensures
            e == self.error(),
    {
        if self.is_exhaustion() {
            TempFileError::ResourceExhausted
        } else {
            TempFileError::IoFailure
        }
    }
}

} // verus!
