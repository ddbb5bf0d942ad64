//! A small fetch-and-open helper library.
//!
//! The library holds the verified control flow of a desktop helper that
//! downloads a file over HTTP into a temporary directory and then asks the
//! operating system to open it: building the destination path, sequencing
//! the steps of the download, wrapping each failure in its message, and
//! choosing the platform command that opens the file. The I/O itself is
//! left to the embedding application, which drives the verified session
//! step by step.

pub mod laws;
pub mod messages;
pub mod paths;
pub mod platform;
pub mod session;
