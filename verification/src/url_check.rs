//! URL validation: a string is accepted only when it parses as a well-formed
//! absolute URL, and the accepted value is the parser's normalized
//! serialization of it.

use vstd::prelude::*;
use crate::error::YtdlError;

verus! {

/// Whether a string parses as a well-formed absolute URL.
pub uninterp spec fn url_parses(s: Seq<char>) -> bool;

/// The normalized serialization of a string that parses as a URL.
pub uninterp spec fn url_serialization(s: Seq<char>) -> Seq<char>;

/// The parser's diagnostic message for a string that does not parse as a URL.
pub uninterp spec fn url_parse_message(s: Seq<char>) -> Seq<char>;

/// Relies on url::Url::parse: whether a string parses as an absolute URL, the
/// parsed URL's serialization (Url::as_str), and the message of the parse
/// error (ParseError's Display, a fixed text per variant) are each a function
/// of the input string alone; no input makes the parser panic.
#[verifier::external_body]
fn parse_url(s: &str) -> (r: Result<String, String>)
    ensures
        r is Ok <==> url_parses(s@),
        r matches Ok(u) ==> u@ == url_serialization(s@),
        r matches Err(m) ==> m@ == url_parse_message(s@),
{
    match ::url::Url::parse(s) {
        Ok(parsed) => Ok(parsed.as_str().to_owned()),
        Err(err) => Err(err.to_string()),
    }
}

/// A URL string in normalized form: the serialization of some string that the
/// URL parser accepted.
pub open spec fn is_normalized_url(s: Seq<char>) -> bool {
    exists|raw: Seq<char>| #[trigger] url_parses(raw) && s == url_serialization(raw)
}

/// A validated URL. A value of this type only ever holds the normalized
/// serialization of a string that parsed as a well-formed absolute URL.
pub struct ValidUrl {
    url: String,
}

impl View for ValidUrl {
    type V = Seq<char>;

    closed spec fn view(&self) -> Seq<char> {
        self.url@
    }
}

impl ValidUrl {
    /// Validate a raw URL string. Returns the normalized URL exactly when the
    /// string parses as a well-formed absolute URL, and otherwise the
    /// parser's message, wrapped as `InvalidUrl`.
    pub fn new(new_url: String) -> (r: Result<ValidUrl, YtdlError>)
        ensures
            r is Ok <==> url_parses(new_url@),
            r matches Ok(u) ==> u@ == url_serialization(new_url@) && is_normalized_url(u@),
            r matches Err(e) ==> e matches YtdlError::InvalidUrl(m) && m@ == url_parse_message(
                new_url@,
            ),
    {
        match parse_url(new_url.as_str()) {
            Ok(parsed) => {
                let valid = ValidUrl { url: parsed };
                proof {
                    assert(url_parses(new_url@) && valid@ == url_serialization(new_url@));
                }
                Ok(valid)
            },
            Err(message) => Err(YtdlError::InvalidUrl(message)),
        }
    }

    /// The validated URL as a string slice.
    pub fn as_str(&self) -> (s: &str)
        ensures
            s@ == self@,
    {
        self.url.as_str()
    }
}

} // verus!
