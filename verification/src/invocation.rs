//! The invocation builder: the fixed, ordered argument list handed to the
//! external downloader, derived from a validated `Request`.

use vstd::prelude::*;
use crate::error::YtdlError;
use crate::request::{CliArguments, Request, file_name_spec, directory_spec};
use crate::url_check::{url_parses, url_serialization, url_parse_message};

verus! {

/// One command-line argument for the external downloader: a flag, with or
/// without an accompanying value.
pub struct InvocationArg {
    /// The flag itself, such as `--progress`.
    pub flag: String,
    /// The flag's value, where the flag takes one.
    pub value: Option<String>,
}

/// The mathematical value of an `InvocationArg`.
pub struct ArgView {
    /// The flag's characters.
    pub flag: Seq<char>,
    /// The value's characters, where the flag takes a value.
    pub value: Option<Seq<char>>,
}

impl View for InvocationArg {
    type V = ArgView;

    open spec fn view(&self) -> ArgView {
        ArgView { flag: self.flag@, value: self.value.deep_view() }
    }
}

impl InvocationArg {
    /// An argument that is a bare flag.
    pub fn new(flag: &str) -> (r: InvocationArg)
        ensures
            r@.flag == flag@,
            r@.value is None,
    {
        InvocationArg { flag: flag.to_owned(), value: None }
    }

    /// An argument that is a flag followed by a value.
    pub fn new_with_value(flag: &str, value: &str) -> (r: InvocationArg)
        ensures
            r@.flag == flag@,
            r@.value == Some(value@),
    {
        InvocationArg { flag: flag.to_owned(), value: Some(value.to_owned()) }
    }
}

/// The views of a sequence of invocation arguments.
pub open spec fn args_views(args: Seq<InvocationArg>) -> Seq<ArgView> {
    args.map_values(|a: InvocationArg| a@)
}

/// The full argument list for an output file name: a progress flag, the
/// format selector fixed to `best`, and the output-filename flag carrying the
/// file name, in that order and nothing else.
pub open spec fn invocation_args_spec(file_name: Seq<char>) -> Seq<ArgView> {
    seq![
        ArgView { flag: "--progress"@, value: None },
        ArgView { flag: "-f"@, value: Some("best"@) },
        ArgView { flag: "-o"@, value: Some(file_name) },
    ]
}

/// How many arguments in `args` carry the flag `flag`.
pub open spec fn count_flag(args: Seq<ArgView>, flag: Seq<char>) -> nat
    decreases args.len(),
{
    if args.len() == 0 {
        0
    } else {
        (if args[0].flag == flag {
            1nat
        } else {
            0nat
        }) + count_flag(args.drop_first(), flag)
    }
}

/// Law: whatever the output file name, the built argument list holds exactly
/// one progress flag, exactly one format flag, whose value is `best`, and
/// exactly one output-filename flag, whose value is the file name.
pub proof fn lemma_invocation_args_exactly_one(file_name: Seq<char>)
    ensures
        count_flag(invocation_args_spec(file_name), "--progress"@) == 1,
        count_flag(invocation_args_spec(file_name), "-f"@) == 1,
        count_flag(invocation_args_spec(file_name), "-o"@) == 1,
        invocation_args_spec(file_name)[1].value == Some("best"@),
        invocation_args_spec(file_name)[2].value == Some(file_name),
{
    reveal_strlit("--progress");
    reveal_strlit("-f");
    reveal_strlit("-o");
    let s = invocation_args_spec(file_name);
    assert("-f"@[1] == 'f' && "-o"@[1] == 'o');
    assert("--progress"@ != "-f"@ && "--progress"@ != "-o"@ && "-f"@ != "-o"@);
    let s1 = s.drop_first();
    let s2 = s1.drop_first();
    let s3 = s2.drop_first();
    assert(s1[0] == s[1] && s1[1] == s[2]);
    assert(s2[0] == s[2]);
    assert(s3.len() == 0);
    assert(s[0].flag == "--progress"@ && s[1].flag == "-f"@ && s[2].flag == "-o"@);
    assert(count_flag(s3, "--progress"@) == 0 && count_flag(s3, "-f"@) == 0 && count_flag(
        s3,
        "-o"@,
    ) == 0);
    assert(count_flag(s2, "--progress"@) == 0 && count_flag(s2, "-f"@) == 0 && count_flag(
        s2,
        "-o"@,
    ) == 1);
    assert(count_flag(s1, "--progress"@) == 0 && count_flag(s1, "-f"@) == 1 && count_flag(
        s1,
        "-o"@,
    ) == 1);
    assert(count_flag(s, "--progress"@) == 1 && count_flag(s, "-f"@) == 1 && count_flag(
        s,
        "-o"@,
    ) == 1);
}

/// Everything the external downloader is invoked with: the target directory,
/// the ordered argument list, and the validated URL.
pub struct Invocation {
    /// The directory the download is written into.
    pub directory: String,
    /// The ordered argument list for the external tool.
    pub arguments: Vec<InvocationArg>,
    /// The validated, normalized source URL.
    pub url: String,
}

impl Invocation {
    /// Build the invocation from a validated request: the directory and URL
    /// are taken over unchanged, and the argument list is exactly the fixed
    /// list for the request's file name.
    pub fn from_request(req: Request) -> (inv: Invocation)
        ensures
            inv.directory@ == req.directory@,
            inv.url@ == req.url@,
            args_views(inv.arguments@) == invocation_args_spec(req.file_name@),
    {
        let mut arguments: Vec<InvocationArg> = Vec::new();
        arguments.push(InvocationArg::new("--progress"));
        arguments.push(InvocationArg::new_with_value("-f", "best"));
        arguments.push(InvocationArg::new_with_value("-o", req.file_name.as_str()));
        proof {
            assert(args_views(arguments@) =~= invocation_args_spec(req.file_name@));
        }
        let url = req.url.as_str().to_owned();
        Invocation { directory: req.directory, arguments, url }
    }

    /// Validate raw command-line values and build the invocation from them.
    /// Succeeds exactly when the URL parses as a well-formed absolute URL; on
    /// success the invocation holds the computed directory, the fixed
    /// argument list for the computed file name, and the normalized URL.
    pub fn build(args: CliArguments) -> (r: Result<Invocation, YtdlError>)
        ensures
            r is Ok <==> url_parses(args.url@),
            r matches Ok(inv) ==> {
                &&& inv.directory@ == directory_spec(args.directory.deep_view())
                &&& args_views(inv.arguments@) == invocation_args_spec(
                    file_name_spec(args.file_name.deep_view()),
                )
                &&& inv.url@ == url_serialization(args.url@)
            },
            r matches Err(e) ==> e matches YtdlError::InvalidUrl(m) && m@ == url_parse_message(
                args.url@,
            ),
    {
        match Request::new(args) {
            Ok(req) => Ok(Invocation::from_request(req)),
            Err(err) => Err(err),
        }
    }
}

} // verus!
