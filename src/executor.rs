//! The result of running one command: the text sent back to the remote side,
//! an error when the run could not be started, and the exit status.
use vstd::prelude::*;
use crate::text::{decimal_of, push_decimal};

verus! {

/// Exit status recorded when the process reported none.
pub const NO_EXIT_STATUS: i32 = -1;

/// The text that `String::from_utf8_lossy` makes of a byte string.
pub uninterp spec fn lossy_utf8(b: Seq<u8>) -> Seq<char>;

/// Relies on `String::from_utf8_lossy`: valid UTF-8 is decoded as it is and
/// every invalid sequence becomes U+FFFD, so the text is empty exactly when
/// the bytes are.
#[verifier::external_body]
fn decode_lossy(b: &[u8]) -> (r: String)
    ensures
        r@ == lossy_utf8(b@),
        r@.len() == 0 <==> b@.len() == 0,
{
    String::from_utf8_lossy(b).into_owned()
}

/// The labelled section of one captured stream; nothing for an empty stream.
pub open spec fn stream_section(label: Seq<char>, text: Seq<char>) -> Seq<char> {
    if text.len() == 0 {
        Seq::empty()
    } else {
        label + text + seq!['\n']
    }
}

pub open spec fn exit_status_of(code: Option<i32>) -> i32 {
    match code {
        Some(c) => c,
        None => NO_EXIT_STATUS,
    }
}

/// The report of a finished command: standard output, then standard error,
/// each under its label when not empty, then the exit status line.
pub open spec fn rendered_output(stdout: Seq<char>, stderr: Seq<char>, code: Option<i32>) -> Seq<char> {
    stream_section("STDOUT:\n"@, stdout) + stream_section("STDERR:\n"@, stderr)
        + "Command exited with status code: "@ + decimal_of(exit_status_of(code) as int)
}

/// Renders the report of a finished command from its decoded streams.
pub fn render_output(stdout: &str, stderr: &str, code: Option<i32>) -> (r: String)
    ensures
        r@ == rendered_output(stdout@, stderr@, code),
{
    let mut s = String::new();
    if stdout.unicode_len() > 0 {
        s.append("STDOUT:\n");
        s.append(stdout);
        s.append("\n");
        proof {
            reveal_strlit("\n");
        }
    }
    let ghost after_out = s@;
    if stderr.unicode_len() > 0 {
        s.append("STDERR:\n");
        s.append(stderr);
        s.append("\n");
        proof {
            reveal_strlit("\n");
        }
    }
    let ghost after_err = s@;
    s.append("Command exited with status code: ");
    let status = match code {
        Some(c) => c,
        None => NO_EXIT_STATUS,
    };
    push_decimal(&mut s, status);
    proof {
        assert(after_out == stream_section("STDOUT:\n"@, stdout@));
        assert(after_err == after_out + stream_section("STDERR:\n"@, stderr@));
    }
    s
}

/// What running a command produced. `error` is set only when the run could
/// not be started or completed, never for a nonzero exit status.
pub struct CommandResult {
    pub output: String,
    pub error: Option<String>,
    pub exit_status: i32,
}

impl CommandResult {
    /// The result of a command that ran, from its captured streams and the
    /// exit code that the process reported, if any.
    pub fn completed(stdout: &[u8], stderr: &[u8], code: Option<i32>) -> (r: CommandResult)
        ensures
            r.output@ == rendered_output(lossy_utf8(stdout@), lossy_utf8(stderr@), code),
            lossy_utf8(stdout@).len() == 0 <==> stdout@.len() == 0,
            lossy_utf8(stderr@).len() == 0 <==> stderr@.len() == 0,
            r.error is None,
            r.exit_status == exit_status_of(code),
    {
        let out = decode_lossy(stdout);
        let err = decode_lossy(stderr);
        CommandResult::from_streams(out.as_str(), err.as_str(), code)
    }

    /// The result of a command that ran, from its decoded streams.
    pub fn from_streams(stdout: &str, stderr: &str, code: Option<i32>) -> (r: CommandResult)
        ensures
            r.output@ == rendered_output(stdout@, stderr@, code),
            r.error is None,
            r.exit_status == exit_status_of(code),
    {
        let output = render_output(stdout, stderr, code);
        let exit_status = match code {
            Some(c) => c,
            None => NO_EXIT_STATUS,
        };
        CommandResult { output, error: None, exit_status }
    }

    /// The result of a command that could not be run: the description of the
    /// failure stands both as the output and as the error.
    pub fn failed(message: &str) -> (r: CommandResult)
        ensures
            r.output@ == message@,
            r.error matches Some(e) && e@ == message@,
            r.exit_status == NO_EXIT_STATUS,
    {
        CommandResult {
            output: String::from_str(message),
            error: Some(String::from_str(message)),
            exit_status: NO_EXIT_STATUS,
        }
    }
}

} // verus!
