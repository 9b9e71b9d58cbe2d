//! The platforms that temporary files are created on.

use vstd::prelude::*;

verus! {

/// The family of platforms a provider runs on, as far as names are concerned.
#[derive(Clone, Copy, Debug, PartialEq, Eq, Structural)]
pub enum Platform {
    /// Linux, which offers anonymous memory files.
    Linux,
    /// Any other Unix-like system.
    Unix,
    /// Windows.
    Windows,
}

impl Platform {
    /// Whether `c` separates the components of a path on this platform.
    pub open spec fn separates(self, c: char) -> bool {
        c == '/' || (self == Platform::Windows && c == '\\')
    }

    /// Whether anonymous memory files exist on this platform.
    pub open spec fn memory_backed(self) -> bool {
        self == Platform::Linux
    }

    /// Tells whether anonymous memory files exist on this platform.
    pub fn has_memory_files(&self) -> (b: bool)
        ensures
            b == self.memory_backed(),
    {
        match self {
            Platform::Linux => true,
            _ => false,
        }
    }
}

} // verus!
