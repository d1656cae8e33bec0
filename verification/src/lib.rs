//! Audit of a directory tree for import into a document platform that
//! restricts the length of file and folder names.
//!
//! The library turns a sequence of filesystem entries, as an unverified
//! walker hands them over, into the contents of three tabular reports:
//! the full folder hierarchy, the folders whose base name exceeds the
//! length limit, and the files whose base name exceeds it.

pub mod csv_format;
pub mod entry;
pub mod paths;
pub mod report;
pub mod restriction;
