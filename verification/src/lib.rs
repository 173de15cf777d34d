//! Running a command line through the platform's shell, in two ways: `call`
//! reports how the command ended, `ensure_call` makes an error of a command
//! that did not succeed.
//!
//! Starting the process is the caller's part. [`shell::invocation`] says what
//! to start; what came of it is handed to [`call`] or [`ensure_call`].
use vstd::prelude::*;

pub mod decimal;
pub mod decode;
pub mod message;
pub mod response;
pub mod shell;
pub mod text;

pub use response::{ProcessOutput, Response};
pub use shell::{invocation, Invocation, Platform};

use decode::lossy_text;
use response::{keeps_well_formed_text, response_of, ProcessOutputView, ResponseView};
use text::{all_white_space, is_trimmed, lemma_trimmed_strips};

verus! {

/// The error of the operating system's process interface. Nothing is known
/// of its contents here: it is handed on as it came.
#[verifier::external_type_specification]
#[verifier::external_body]
pub struct ExIoError(std::io::Error);

/// Why `ensure_call` gave no response.
#[derive(Debug)]
pub enum CallError {
    /// The shell could not be started.
    Spawn(std::io::Error),
    /// The shell ran the command, and the command did not succeed.
    Unsuccessful(Response),
}

/// The mathematical value of a [`CallError`].
pub enum CallErrorView {
    Spawn(std::io::Error),
    Unsuccessful(ResponseView),
}

impl View for CallError {
    type V = CallErrorView;

    open spec fn view(&self) -> CallErrorView {
        match self {
            CallError::Spawn(e) => CallErrorView::Spawn(*e),
            CallError::Unsuccessful(r) => CallErrorView::Unsuccessful(r@),
        }
    }
}

/// What `call` and `get_response` return for `command`, given what came of
/// starting the shell: the normalized response whenever the shell ran,
/// however the command ended; the error of the start as it came.
pub open spec fn call_outcome(
    command: Seq<char>,
    launched: Result<ProcessOutput, std::io::Error>,
) -> Result<ResponseView, std::io::Error> {
    match launched {
        Ok(output) => Ok(response_of(command, output@)),
        Err(e) => Err(e),
    }
}

/// What `ensure_call` returns for `command`: the response where the command
/// succeeded, an error that holds the response where it did not, and an
/// error of another kind where the shell could not be started.
pub open spec fn ensure_outcome(
    command: Seq<char>,
    launched: Result<ProcessOutput, std::io::Error>,
) -> Result<ResponseView, CallErrorView> {
    match call_outcome(command, launched) {
        Ok(r) => if r.success {
            Ok(r)
        } else {
            Err(CallErrorView::Unsuccessful(r))
        },
        Err(e) => Err(CallErrorView::Spawn(e)),
    }
}

/// The view of a result of `call` or `get_response`.
pub open spec fn call_view(result: Result<Response, std::io::Error>) -> Result<
    ResponseView,
    std::io::Error,
> {
    match result {
        Ok(r) => Ok(r@),
        Err(e) => Err(e),
    }
}

/// The view of a result of `ensure_call`.
pub open spec fn ensure_view(result: Result<Response, CallError>) -> Result<
    ResponseView,
    CallErrorView,
> {
    match result {
        Ok(r) => Ok(r@),
        Err(e) => Err(e@),
    }
}

/// Makes the response for `command` of what came of starting the shell.
pub fn get_response(command: &str, launched: Result<ProcessOutput, std::io::Error>) -> (result:
    Result<Response, std::io::Error>)
    ensures
        call_view(result) == call_outcome(command@, launched),
        result matches Ok(r) ==> r.wf(),
        launched matches Ok(output) ==> result matches Ok(r) && keeps_well_formed_text(
            output@,
            r@,
        ),
{
    match launched {
        Ok(output) => Ok(Response::from_output(command.to_owned(), output)),
        Err(e) => Err(e),
    }
}

/// Reports how `command` ended, without judging it: a command that ran and
/// failed gives a response with `success` false, not an error.
pub fn call(command: &str, launched: Result<ProcessOutput, std::io::Error>) -> (result: Result<
    Response,
    std::io::Error,
>)
    ensures
        call_view(result) == call_outcome(command@, launched),
        result matches Ok(r) ==> r.wf(),
        launched matches Ok(output) ==> result matches Ok(r) && keeps_well_formed_text(
            output@,
            r@,
        ),
{
    get_response(command, launched)
}

/// Reports how `command` ended, and makes an error of a command that did
/// not succeed. The error holds the whole response.
pub fn ensure_call(command: &str, launched: Result<ProcessOutput, std::io::Error>) -> (result:
    Result<Response, CallError>)
    ensures
        ensure_view(result) == ensure_outcome(command@, launched),
        result matches Ok(r) ==> r.wf() && r.success,
        result matches Err(CallError::Unsuccessful(r)) ==> r.wf() && !r.success,
        launched matches Ok(output) ==> match result {
            Ok(r) => keeps_well_formed_text(output@, r@),
            Err(CallError::Unsuccessful(r)) => keeps_well_formed_text(output@, r@),
            Err(CallError::Spawn(_)) => false,
        },
{
    match get_response(command, launched) {
        Ok(response) => {
            if response.success {
                Ok(response)
            } else {
                Err(CallError::Unsuccessful(response))
            }
        },
        Err(e) => Err(CallError::Spawn(e)),
    }
}

/// Where the shell ran, `call` gives a response, and the response says
/// `success` exactly where `ensure_call` gives a response too.
pub proof fn lemma_call_agrees_with_ensure_call(
    command: Seq<char>,
    launched: Result<ProcessOutput, std::io::Error>,
)
    requires
        launched is Ok,
    ensures
        call_outcome(command, launched) is Ok,
        call_outcome(command, launched)->Ok_0.success <==> ensure_outcome(command, launched) is Ok,
{
}

/// A command that ended with exit code zero passes `ensure_call`, and the
/// response says so.
pub proof fn lemma_exit_zero_is_ensured(command: Seq<char>, output: ProcessOutput)
    requires
        output.code == Some(0i32),
    ensures
        ensure_outcome(command, Ok(output)) == Ok::<ResponseView, CallErrorView>(
            response_of(command, output@),
        ),
        response_of(command, output@).success,
{
}

/// A command that ended with another exit code, or with none, gives a
/// response with `success` false from `call` and an error that holds that
/// response from `ensure_call`.
pub proof fn lemma_other_exit_is_refused(command: Seq<char>, output: ProcessOutput)
    requires
        output.code != Some(0i32),
    ensures
        call_outcome(command, Ok(output)) == Ok::<ResponseView, std::io::Error>(
            response_of(command, output@),
        ),
        !response_of(command, output@).success,
        ensure_outcome(command, Ok(output)) == Err::<ResponseView, CallErrorView>(
            CallErrorView::Unsuccessful(response_of(command, output@)),
        ),
{
}

/// Running the same command again, with the same exit code and the same
/// bytes on both streams, gives the same response from `call` and the same
/// result from `ensure_call`.
pub proof fn lemma_same_output_same_response(
    command: Seq<char>,
    first: ProcessOutput,
    second: ProcessOutput,
)
    requires
        first.code == second.code,
        first.stdout@ == second.stdout@,
        first.stderr@ == second.stderr@,
    ensures
        call_outcome(command, Ok(first)) == call_outcome(command, Ok(second)),
        ensure_outcome(command, Ok(first)) == ensure_outcome(command, Ok(second)),
{
}

/// The whitespace around what a stream holds is removed, and what stands
/// between is kept as it is, whitespace inside it included.
pub proof fn lemma_response_strips_whitespace(
    command: Seq<char>,
    output: ProcessOutputView,
    lead: Seq<char>,
    core: Seq<char>,
    trail: Seq<char>,
)
    requires
        all_white_space(lead),
        all_white_space(trail),
        is_trimmed(core),
    ensures
        lossy_text(output.stdout) == lead + core + trail ==> response_of(command, output).stdout
            == core,
        lossy_text(output.stderr) == lead + core + trail ==> response_of(command, output).stderr
            == core,
{
    lemma_trimmed_strips(lead, core, trail);
}

/// Whatever bytes the streams hold, well-formed text or not, `call` gives a
/// response, and `ensure_call` fails only where the command did not end
/// with exit code zero.
pub proof fn lemma_any_bytes_are_accepted(command: Seq<char>, output: ProcessOutput)
    ensures
        call_outcome(command, Ok(output)) is Ok,
        ensure_outcome(command, Ok(output)) is Err ==> output.code != Some(0i32),
        !(ensure_outcome(command, Ok(output)) matches Err(CallErrorView::Spawn(_))),
{
}

} // verus!
