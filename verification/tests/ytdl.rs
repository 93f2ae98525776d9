use ytdl::error::YtdlError;
use ytdl::invocation::Invocation;
use ytdl::report::report;
use ytdl::request::{CliArguments, Request};
use ytdl::url_check::ValidUrl;

fn arguments(file_name: Option<&str>, directory: Option<&str>, url: &str) -> CliArguments {
    CliArguments {
        file_name: file_name.map(String::from),
        directory: directory.map(String::from),
        url: String::from(url),
    }
}

#[test]
fn rejects_invalid_url() {
    let result = Invocation::build(arguments(None, None, "not a url"));
    match result {
        Err(YtdlError::InvalidUrl(message)) => {
            assert_eq!(message, "relative URL without a base");
        }
        _ => panic!("an invalid URL must be rejected"),
    }
}

#[test]
fn rejects_empty_url() {
    let result = Request::new(arguments(None, None, ""));
    assert!(matches!(result, Err(YtdlError::InvalidUrl(_))));
}

#[test]
fn accepts_valid_url() {
    let result = Request::new(arguments(None, None, "https://www.youtube.com/watch?v=abc"));
    let request = result.expect("a well-formed URL must be accepted");
    assert_eq!(request.url.as_str(), "https://www.youtube.com/watch?v=abc");
}

#[test]
fn url_is_normalized() {
    let url = ValidUrl::new(String::from("HTTP://Example.COM")).expect("valid");
    assert_eq!(url.as_str(), "http://example.com/");
}

#[test]
fn default_file_name() {
    let request = Request::new(arguments(None, None, "https://example.com")).expect("valid");
    assert_eq!(request.file_name, "video-lul.mp4");
}

#[test]
fn chosen_file_name() {
    let request =
        Request::new(arguments(Some("clip"), None, "https://example.com")).expect("valid");
    assert_eq!(request.file_name, "clip.mp4");
}

#[test]
fn empty_file_name_keeps_extension() {
    let request = Request::new(arguments(Some(""), None, "https://example.com")).expect("valid");
    assert_eq!(request.file_name, ".mp4");
}

#[test]
fn default_directory() {
    let request = Request::new(arguments(None, None, "https://example.com")).expect("valid");
    assert_eq!(request.directory, ".");
}

#[test]
fn subdirectory_is_joined() {
    let request =
        Request::new(arguments(None, Some("clips"), "https://example.com")).expect("valid");
    assert_eq!(request.directory, "./clips");
}

#[test]
fn invocation_argument_list() {
    let invocation =
        Invocation::build(arguments(None, Some("clips"), "https://example.com")).expect("valid");
    assert_eq!(invocation.directory, "./clips");
    assert_eq!(invocation.url, "https://example.com/");
    assert_eq!(invocation.arguments.len(), 3);
    assert_eq!(invocation.arguments[0].flag, "--progress");
    assert_eq!(invocation.arguments[0].value, None);
    assert_eq!(invocation.arguments[1].flag, "-f");
    assert_eq!(invocation.arguments[1].value.as_deref(), Some("best"));
    assert_eq!(invocation.arguments[2].flag, "-o");
    assert_eq!(invocation.arguments[2].value.as_deref(), Some("video-lul.mp4"));
}

#[test]
fn invocation_filename_argument_follows_choice() {
    let invocation =
        Invocation::build(arguments(Some("talk"), None, "https://example.com")).expect("valid");
    assert_eq!(invocation.arguments[2].value.as_deref(), Some("talk.mp4"));
}

#[test]
fn report_of_success() {
    let run = report(&Ok(String::from("./clips")));
    assert_eq!(run.exit_code, 0);
    assert_eq!(run.stdout_line.as_deref(), Some("File downloaded at: ./clips"));
    assert_eq!(run.stderr_line, None);
}

#[test]
fn report_of_init_failure() {
    let run = report(&Err(YtdlError::ProcessInitError(String::from("no downloader found"))));
    assert_ne!(run.exit_code, 0);
    assert_eq!(run.stdout_line, None);
    assert_eq!(
        run.stderr_line.as_deref(),
        Some("Failed initializing download: no downloader found")
    );
}

#[test]
fn report_of_download_failure() {
    let run = report(&Err(YtdlError::DownloadError(String::from("network unreachable"))));
    assert_ne!(run.exit_code, 0);
    assert_eq!(run.stdout_line, None);
    assert_eq!(run.stderr_line.as_deref(), Some("Failed download: network unreachable"));
}

#[test]
fn report_of_invalid_url() {
    let run = report(&Err(YtdlError::InvalidUrl(String::from("empty host"))));
    assert_ne!(run.exit_code, 0);
    assert_eq!(run.stdout_line, None);
    assert_eq!(run.stderr_line.as_deref(), Some("Failed parsing url: empty host"));
}

#[test]
fn error_messages() {
    assert_eq!(
        YtdlError::InvalidUrl(String::from("invalid port number")).message(),
        "Failed parsing url: invalid port number"
    );
    assert_eq!(
        YtdlError::ProcessInitError(String::from("denied")).message(),
        "Failed initializing download: denied"
    );
    assert_eq!(
        YtdlError::DownloadError(String::from("timed out")).message(),
        "Failed download: timed out"
    );
}
