//! The error kinds a run can end with, each carrying the underlying message.

use vstd::prelude::*;
use vstd::string::StringExecFns;

verus! {

/// Why a run failed: the URL did not parse, the external downloader could not
/// be set up, or the download itself failed. Every kind is terminal.
#[derive(Debug)]
pub enum YtdlError {
    /// The supplied URL is not a well-formed absolute URL; holds the parser's
    /// own message.
    InvalidUrl(String),
    /// The external download facility could not be constructed; holds the
    /// underlying message.
    ProcessInitError(String),
    /// The external download ran but did not complete; holds the underlying
    /// message.
    DownloadError(String),
}

impl YtdlError {
    /// The diagnostic text reported for this error: a fixed prefix for the
    /// kind, then the underlying message.
    pub open spec fn message_spec(self) -> Seq<char> {
        match self {
            YtdlError::InvalidUrl(m) => "Failed parsing url: "@ + m@,
            YtdlError::ProcessInitError(m) => "Failed initializing download: "@ + m@,
            YtdlError::DownloadError(m) => "Failed download: "@ + m@,
        }
    }

    /// Render the diagnostic text for this error.
    pub fn message(&self) -> (m: String)
        ensures
            m@ == self.message_spec(),
    {
        match self {
            YtdlError::InvalidUrl(s) => String::from_str("Failed parsing url: ").concat(
                s.as_str(),
            ),
            YtdlError::ProcessInitError(s) => String::from_str(
                "Failed initializing download: ",
            ).concat(s.as_str()),
            YtdlError::DownloadError(s) => String::from_str("Failed download: ").concat(
                s.as_str(),
            ),
        }
    }
}

} // verus!
