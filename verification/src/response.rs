//! What a finished shell command left behind, raw and normalized.
use crate::decode::{decode_lossy, lossy_text};
use crate::text::{is_trimmed, lemma_trimmed_shape, trim, trimmed};
use vstd::prelude::*;
use vstd::utf8::{decode_utf8, valid_utf8};

verus! {

/// What the operating system reports of a process that has ended.
#[derive(Debug, Clone, PartialEq, Eq)]
pub struct ProcessOutput {
    /// The exit code; `None` where a signal ended the process.
    pub code: Option<i32>,
    /// The bytes written to standard output.
    pub stdout: Vec<u8>,
    /// The bytes written to standard error.
    pub stderr: Vec<u8>,
}

/// The mathematical value of a [`ProcessOutput`].
pub struct ProcessOutputView {
    pub code: Option<i32>,
    pub stdout: Seq<u8>,
    pub stderr: Seq<u8>,
}

impl View for ProcessOutput {
    type V = ProcessOutputView;

    open spec fn view(&self) -> ProcessOutputView {
        ProcessOutputView { code: self.code, stdout: self.stdout@, stderr: self.stderr@ }
    }
}

/// The result of running one command.
#[derive(Debug, Clone, PartialEq, Eq)]
pub struct Response {
    /// The command text as it was submitted.
    pub command: String,
    /// The exit code; `None` where a signal ended the process.
    pub code: Option<i32>,
    /// Whether the process ended normally with exit code zero.
    pub success: bool,
    /// Standard output as text, without surrounding whitespace.
    pub stdout: String,
    /// Standard error as text, without surrounding whitespace.
    pub stderr: String,
}

/// The mathematical value of a [`Response`].
pub struct ResponseView {
    pub command: Seq<char>,
    pub code: Option<i32>,
    pub success: bool,
    pub stdout: Seq<char>,
    pub stderr: Seq<char>,
}

impl View for Response {
    type V = ResponseView;

    open spec fn view(&self) -> ResponseView {
        ResponseView {
            command: self.command@,
            code: self.code,
            success: self.success,
            stdout: self.stdout@,
            stderr: self.stderr@,
        }
    }
}

/// A process succeeded when it ended normally with exit code zero.
pub open spec fn exit_success(code: Option<i32>) -> bool {
    code == Some(0i32)
}

impl ResponseView {
    /// The success flag agrees with the exit code, and neither stream begins
    /// or ends with whitespace.
    pub open spec fn wf(self) -> bool {
        &&& self.success == exit_success(self.code)
        &&& is_trimmed(self.stdout)
        &&& is_trimmed(self.stderr)
    }
}

/// The response for `command`, given the exit code and the two streams as
/// decoded text: the command and the code as they are, the success flag from
/// the code, each stream trimmed.
pub open spec fn normalized(
    command: Seq<char>,
    code: Option<i32>,
    stdout: Seq<char>,
    stderr: Seq<char>,
) -> ResponseView {
    ResponseView {
        command,
        code,
        success: exit_success(code),
        stdout: trimmed(stdout),
        stderr: trimmed(stderr),
    }
}

/// The response for `command`, given the raw output of the process: each
/// stream is decoded lossily, then normalized.
pub open spec fn response_of(command: Seq<char>, output: ProcessOutputView) -> ResponseView {
    normalized(command, output.code, lossy_text(output.stdout), lossy_text(output.stderr))
}

/// Where a stream of `output` is well-formed UTF-8, `r` holds the characters
/// that it encodes, trimmed.
pub open spec fn keeps_well_formed_text(output: ProcessOutputView, r: ResponseView) -> bool {
    &&& valid_utf8(output.stdout) ==> r.stdout == trimmed(decode_utf8(output.stdout))
    &&& valid_utf8(output.stderr) ==> r.stderr == trimmed(decode_utf8(output.stderr))
}

/// Every normalized response is well formed.
pub proof fn lemma_normalized_wf(
    command: Seq<char>,
    code: Option<i32>,
    stdout: Seq<char>,
    stderr: Seq<char>,
)
    ensures
        normalized(command, code, stdout, stderr).wf(),
{
    lemma_trimmed_shape(stdout);
    lemma_trimmed_shape(stderr);
}

impl Response {
    /// See [`ResponseView::wf`].
    pub open spec fn wf(&self) -> bool {
        self@.wf()
    }

    /// Builds the response from the exit code and the two streams as text.
    pub fn from_text(command: String, code: Option<i32>, stdout: &str, stderr: &str) -> (response:
        Response)
        ensures
            response@ == normalized(command@, code, stdout@, stderr@),
            response.wf(),
    {
        proof {
            lemma_normalized_wf(command@, code, stdout@, stderr@);
        }
        let success = match code {
            Some(c) => c == 0,
            None => false,
        };
        Response {
            command,
            code,
            success,
            stdout: trim(stdout).to_owned(),
            stderr: trim(stderr).to_owned(),
        }
    }

    /// Builds the response from the raw output of the process. Bytes that
    /// are not UTF-8 never make this fail: they are decoded lossily.
    pub fn from_output(command: String, output: ProcessOutput) -> (response: Response)
        ensures
            response@ == response_of(command@, output@),
            response.wf(),
            keeps_well_formed_text(output@, response@),
    {
        let stdout = decode_lossy(output.stdout.as_slice());
        let stderr = decode_lossy(output.stderr.as_slice());
        Response::from_text(command, output.code, stdout.as_str(), stderr.as_str())
    }
}

} // verus!
