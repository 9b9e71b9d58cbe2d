//! Short-lived temporary files that other code reaches through a path.
//!
//! On Linux such a file is an anonymous memory file, reached through the
//! descriptor table of its own process; elsewhere it is a uniquely named
//! file on disk. This library holds the rules: which name hints are
//! accepted, what is asked of the operating system, what its answer means,
//! and under which path the file is found. Asking the operating system is
//! left to the caller.

pub mod decimal;
pub mod error;
pub mod mem_file;
pub mod name;
pub mod objects;
pub mod platform;
pub mod proc_path;
pub mod tmp_file;
pub mod vm;

pub use error::TempFileError;
pub use mem_file::TmpMemFile;
pub use objects::ExtractionMethod;
pub use objects::OutputFormat;
pub use objects::ABSOLUTE_AREA_CALCULATION_MODE;
pub use objects::RELATIVE_AREA_CALCULATION_MODE;
pub use platform::Platform;
pub use tmp_file::GenericTempFile;
pub use tmp_file::LinuxMemFd;
pub use tmp_file::TempFile;
