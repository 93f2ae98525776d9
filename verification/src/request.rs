//! The argument collector: turns raw command-line values into a validated
//! `Request`, filling in the default file name and target directory.

use vstd::prelude::*;
use vstd::string::StringExecFns;
use crate::error::YtdlError;
use crate::url_check::{ValidUrl, url_parses, url_serialization, url_parse_message};

verus! {

/// The raw command-line values of one run, before validation.
pub struct CliArguments {
    /// Base name for the downloaded file; the default is used when omitted.
    pub file_name: Option<String>,
    /// Subdirectory under the base directory; the base alone when omitted.
    pub directory: Option<String>,
    /// The source URL, free text until validated.
    pub url: String,
}

/// The output file name for an optional user-supplied base name: the base
/// name, or `video-lul` when omitted, with `.mp4` appended.
pub open spec fn file_name_spec(base: Option<Seq<char>>) -> Seq<char> {
    (match base {
        Some(name) => name,
        None => "video-lul"@,
    }) + ".mp4"@
}

/// The target directory for an optional user-supplied subdirectory: the base
/// directory `.` alone when omitted, else the base joined with the
/// subdirectory.
pub open spec fn directory_spec(sub: Option<Seq<char>>) -> Seq<char> {
    match sub {
        Some(dir) => "./"@ + dir,
        None => "."@,
    }
}

/// A validated download request: a well-formed URL, the output file name and
/// the target directory, both with defaults applied. No request with an
/// unvalidated URL can be built.
pub struct Request {
    /// The validated, normalized source URL.
    pub url: ValidUrl,
    /// The output file name, always ending in `.mp4`.
    pub file_name: String,
    /// The directory the download is written into.
    pub directory: String,
}

impl Request {
    /// Validate raw command-line values into a `Request`. Succeeds exactly
    /// when the URL parses as a well-formed absolute URL; the file name and
    /// directory are computed from the optional values with their defaults.
    pub fn new(args: CliArguments) -> (r: Result<Request, YtdlError>)
        ensures
            r is Ok <==> url_parses(args.url@),
            r matches Ok(req) ==> {
                &&& req.url@ == url_serialization(args.url@)
                &&& req.file_name@ == file_name_spec(args.file_name.deep_view())
                &&& req.directory@ == directory_spec(args.directory.deep_view())
            },
            r matches Err(e) ==> e matches YtdlError::InvalidUrl(m) && m@ == url_parse_message(
                args.url@,
            ),
    {
        let url = match ValidUrl::new(args.url) {
            Ok(url) => url,
            Err(err) => {
                return Err(err);
            },
        };
        let file_name = match args.file_name {
            Some(name) => name.concat(".mp4"),
            None => String::from_str("video-lul").concat(".mp4"),
        };
        let directory = match args.directory {
            Some(dir) => String::from_str("./").concat(dir.as_str()),
            None => String::from_str("."),
        };
        Ok(Request { url, file_name, directory })
    }
}

} // verus!
