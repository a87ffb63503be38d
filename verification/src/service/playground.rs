//! The remote execution service: what it is asked, and what it answers.
//!
//! The calls themselves are made by the caller of this library; here are the
//! values that go into them and come out of them.

use vstd::prelude::*;

verus! {

/// Why a call of the execution service failed.
#[derive(Debug, Clone, Copy, PartialEq, Eq, Structural)]
pub enum PlaygroundError {
    /// The request failed.
    Request,
    /// The service did not answer in time.
    Timeout,
}

/// What a call of the execution service hands back.
pub type PlaygroundResult<T> = Result<T, PlaygroundError>;

/// The error message as a sequence of characters.
pub open spec fn playground_error_text(error: PlaygroundError) -> Seq<char> {
    match error {
        PlaygroundError::Request => "request error"@,
        PlaygroundError::Timeout => "timeout"@,
    }
}

impl PlaygroundError {
    /// The error message.
    pub fn to_string(&self) -> (text: String)
        ensures
            text@ == playground_error_text(*self),
    {
        match self {
            PlaygroundError::Request => String::from_str("request error"),
            PlaygroundError::Timeout => String::from_str("timeout"),
        }
    }
}

/// The result of a run as a mathematical value.
pub struct ExecuteResultView {
    pub result_success: bool,
    pub result_code: Seq<char>,
    pub result_exit_detail: Seq<char>,
    pub result_stdout: Seq<char>,
    pub result_stderr: Seq<char>,
}

/// What the execution service answers when it has run a program.
#[derive(Debug, Clone, PartialEq, Eq)]
pub struct PlaygroundExecuteResult {
    pub result_success: bool,
    pub result_code: String,
    pub result_exit_detail: String,
    pub result_stdout: String,
    pub result_stderr: String,
}

impl View for PlaygroundExecuteResult {
    type V = ExecuteResultView;

    open spec fn view(&self) -> ExecuteResultView {
        ExecuteResultView {
            result_success: self.result_success,
            result_code: self.result_code@,
            result_exit_detail: self.result_exit_detail@,
            result_stdout: self.result_stdout@,
            result_stderr: self.result_stderr@,
        }
    }
}

impl PlaygroundExecuteResult {
    /// The result of a run from the fields of the service's answer. The
    /// service gives no result code, so it is empty.
    pub fn from_response(
        success: bool,
        exit_detail: String,
        stdout: String,
        stderr: String,
    ) -> (res: Self)
        ensures
            res@ == (ExecuteResultView {
                result_success: success,
                result_code: Seq::empty(),
                result_exit_detail: exit_detail@,
                result_stdout: stdout@,
                result_stderr: stderr@,
            }),
    {
        PlaygroundExecuteResult {
            result_success: success,
            result_code: String::new(),
            result_exit_detail: exit_detail,
            result_stdout: stdout,
            result_stderr: stderr,
        }
    }
}

/// The compiler channel that programs are run with.
pub const CHANNEL: &'static str = "stable";

/// The build mode that programs are run with.
pub const MODE: &'static str = "debug";

/// The language edition that programs are run with.
pub const EDITION: &'static str = "2021";

/// The address that runs a program, for a service at `base_url`.
pub fn execute_url(base_url: &str) -> (url: String)
    ensures
        url@ == base_url@ + "/execute"@,
{
    String::from_str(base_url).concat("/execute")
}

/// The address that stores a program, for a service at `base_url`.
pub fn gist_url(base_url: &str) -> (url: String)
    ensures
        url@ == base_url@ + "/meta/gist"@,
{
    String::from_str(base_url).concat("/meta/gist")
}

/// The permalink of a stored program as a sequence of characters.
pub open spec fn perma_link_text(
    channel: Seq<char>,
    mode: Seq<char>,
    edition: Seq<char>,
    gist_id: Seq<char>,
) -> Seq<char> {
    "https://play.rust-lang.org/?version="@ + channel + "&mode="@ + mode + "&edition="@ + edition
        + "&gist="@ + gist_id
}

/// The permalink of the program that the service stored under `gist_id`.
pub fn perma_link(channel: &str, mode: &str, edition: &str, gist_id: &str) -> (link: String)
    ensures
        link@ == perma_link_text(channel@, mode@, edition@, gist_id@),
{
    let mut link = String::from_str("https://play.rust-lang.org/?version=");
    link.append(channel);
    link.append("&mode=");
    link.append(mode);
    link.append("&edition=");
    link.append(edition);
    link.append("&gist=");
    link.append(gist_id);
    link
}

} // verus!
