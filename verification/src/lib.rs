//! A small library behind a command-line downloader: it validates a source
//! URL, fills in defaults for the output file name and target directory, and
//! builds the fixed argument list handed to an external download tool.

pub mod error;
pub mod invocation;
pub mod report;
pub mod request;
pub mod url_check;
