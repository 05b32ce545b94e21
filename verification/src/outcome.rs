//! What a run came to, and the response that tells it.
use vstd::prelude::*;
use vstd::utf8::{encode_utf8, valid_utf8};

use crate::api::{ResponseView, RunResponse};
use crate::engine::{trap_description, TrapReport, TRAP_INTERRUPT};
use crate::text::{from_utf8_lossy, joined, utf8_lossy};

verus! {

/// Why a program was never handed to an interpreter.
#[derive(Debug)]
pub enum SetupError {
    PythonUnavailable,
    JavascriptUnavailable,
    /// The TypeScript source did not transpile; the text says why.
    Transpile(String),
}

/// What a [`SetupError`] says.
pub enum SetupErrorView {
    PythonUnavailable,
    JavascriptUnavailable,
    Transpile(Seq<char>),
}

impl View for SetupError {
    type V = SetupErrorView;

    open spec fn view(&self) -> SetupErrorView {
        match *self {
            SetupError::PythonUnavailable => SetupErrorView::PythonUnavailable,
            SetupError::JavascriptUnavailable => SetupErrorView::JavascriptUnavailable,
            SetupError::Transpile(cause) => SetupErrorView::Transpile(cause@),
        }
    }
}

impl SetupErrorView {
    /// The error as the caller reads it.
    pub open spec fn message(self) -> Seq<char> {
        match self {
            SetupErrorView::PythonUnavailable => "python runtime not available"@,
            SetupErrorView::JavascriptUnavailable => "javascript runtime not available"@,
            SetupErrorView::Transpile(cause) => "typescript transpilation failed: "@ + cause,
        }
    }
}

impl SetupError {
    pub fn message(&self) -> (r: String)
        ensures
            r@ == self@.message(),
    {
        match self {
            SetupError::PythonUnavailable => "python runtime not available".to_owned(),
            SetupError::JavascriptUnavailable => "javascript runtime not available".to_owned(),
            SetupError::Transpile(cause) => joined(
                "typescript transpilation failed: ",
                cause.as_str(),
            ),
        }
    }
}

/// The step of a run that the host could not carry out.
#[derive(Debug, Clone, Copy, PartialEq, Eq, Structural)]
pub enum HostStep {
    CreateDir,
    StageSource,
    MountDir,
    Link,
    Instantiate,
    FindStart,
}

impl HostStep {
    /// What an error in this step is introduced with.
    pub open spec fn context(self) -> Seq<char> {
        match self {
            HostStep::CreateDir => "failed to create sandbox dir: "@,
            HostStep::StageSource => "failed to stage source: "@,
            HostStep::MountDir => ""@,
            HostStep::Link => ""@,
            HostStep::Instantiate => "failed to instantiate module: "@,
            HostStep::FindStart => "module has no _start export: "@,
        }
    }

    fn introduction(self) -> (r: &'static str)
        ensures
            r@ == self.context(),
    {
        match self {
            HostStep::CreateDir => "failed to create sandbox dir: ",
            HostStep::StageSource => "failed to stage source: ",
            HostStep::MountDir => "",
            HostStep::Link => "",
            HostStep::Instantiate => "failed to instantiate module: ",
            HostStep::FindStart => "module has no _start export: ",
        }
    }
}

/// A failure of the host to carry out a run: the step, and the cause as text.
#[derive(Debug)]
pub struct HostError {
    pub step: HostStep,
    pub cause: String,
}

/// The error with which a call of a guest's entry point ended.
pub struct CallError {
    /// The exit status, where the guest exited by itself.
    pub exit_status: Option<i32>,
    /// The trap, where the guest trapped.
    pub trap: Option<TrapReport>,
    /// The error with all its causes.
    pub text: String,
}

/// How a guest ended.
pub enum EndingView {
    Exited(i32),
    TimedOut,
    /// The guest was stopped; the note is added to its stderr.
    Trapped(Seq<char>),
}

/// How a guest ended, given how the call of its entry point came back.
pub open spec fn ending(call: Result<(), CallError>) -> EndingView {
    match call {
        Ok(_) => EndingView::Exited(0),
        Err(e) => match (e.exit_status, e.trap) {
            (Some(status), _) => EndingView::Exited(status),
            (None, Some(trap)) => if trap.spec_code() == TRAP_INTERRUPT {
                EndingView::TimedOut
            } else {
                EndingView::Trapped("\n[trap] "@ + trap_description(trap.spec_code()))
            },
            (None, None) => EndingView::Trapped("\n[error] "@ + e.text@),
        },
    }
}

/// The response to a run whose guest ended in the given way, having written `stdout` and
/// `stderr`.
pub open spec fn guest_answer(
    ending: EndingView,
    stdout: Seq<u8>,
    stderr: Seq<u8>,
    duration_ms: u128,
) -> ResponseView {
    ResponseView {
        stdout: utf8_lossy(stdout),
        stderr: match ending {
            EndingView::Trapped(note) => utf8_lossy(stderr) + note,
            _ => utf8_lossy(stderr),
        },
        exit_code: match ending {
            EndingView::Exited(status) => Some(status),
            _ => None,
        },
        duration_ms,
        timed_out: ending is TimedOut,
        trapped: ending is Trapped,
        error: None,
    }
}

/// The response to a request whose run never started.
pub open spec fn setup_answer(error: SetupErrorView, duration_ms: u128) -> ResponseView {
    ResponseView {
        stdout: Seq::empty(),
        stderr: Seq::empty(),
        exit_code: None,
        duration_ms,
        timed_out: false,
        trapped: false,
        error: Some(error.message()),
    }
}

/// The response to a run that the host could not carry out.
pub open spec fn host_answer(step: HostStep, cause: Seq<char>, duration_ms: u128) -> ResponseView {
    ResponseView {
        stdout: Seq::empty(),
        stderr: Seq::empty(),
        exit_code: None,
        duration_ms,
        timed_out: false,
        trapped: true,
        error: Some("internal execution error: "@ + step.context() + cause),
    }
}

/// What an execution came to.
pub enum ExecutionEnd {
    /// The run never started.
    NotStarted(SetupErrorView),
    /// The host could not carry out the run.
    HostFailed(HostStep, Seq<char>),
    /// The guest was called, and wrote the two outputs.
    Called(EndingView, Seq<u8>, Seq<u8>),
}

/// The response to an execution.
pub open spec fn answer(end: ExecutionEnd, duration_ms: u128) -> ResponseView {
    match end {
        ExecutionEnd::NotStarted(e) => setup_answer(e, duration_ms),
        ExecutionEnd::HostFailed(step, cause) => host_answer(step, cause, duration_ms),
        ExecutionEnd::Called(ending, stdout, stderr) => guest_answer(
            ending,
            stdout,
            stderr,
            duration_ms,
        ),
    }
}

/// Answers a run whose guest was called: `call` is how the call came back, `stdout` and `stderr`
/// what the guest wrote. Output that is UTF-8 comes back unchanged, byte for byte, but for the
/// note that a trap adds to stderr.
pub fn guest_response(
    call: Result<(), CallError>,
    stdout: &[u8],
    stderr: &[u8],
    duration_ms: u128,
) -> (r: RunResponse)
    ensures
        r@ == guest_answer(ending(call), stdout@, stderr@, duration_ms),
        r.exit_code == match call {
            Ok(_) => Some(0i32),
            Err(e) => e.exit_status,
        },
        r.timed_out <==> (call matches Err(e) && e.exit_status is None && (e.trap matches Some(t)
            && t.spec_code() == TRAP_INTERRUPT)),
        r.trapped <==> r.exit_code is None && !r.timed_out,
        r.stdout@ == utf8_lossy(stdout@),
        !r.trapped ==> r.stderr@ == utf8_lossy(stderr@),
        r.trapped ==> (call matches Err(e) && r.stderr@ == utf8_lossy(stderr@) + match e.trap {
            Some(t) => "\n[trap] "@ + trap_description(t.spec_code()),
            None => "\n[error] "@ + e.text@,
        }),
        r.duration_ms == duration_ms,
        r.error is None,
        valid_utf8(stdout@) ==> encode_utf8(r.stdout@) == stdout@,
        valid_utf8(stderr@) && !r.trapped ==> encode_utf8(r.stderr@) == stderr@,
{
    broadcast use vstd::utf8::decode_utf8_encode_utf8;

    let mut timed_out = false;
    let mut trapped = false;
    let mut exit_code: Option<i32> = None;
    let mut extra_stderr = String::new();
    match &call {
        Ok(()) => {
            exit_code = Some(0);
        },
        Err(e) => match (e.exit_status, &e.trap) {
            (Some(status), _) => {
                exit_code = Some(status);
            },
            (None, Some(trap)) => if trap.is_interrupt() {
                timed_out = true;
            } else {
                trapped = true;
                extra_stderr = trap.note();
            },
            (None, None) => {
                trapped = true;
                extra_stderr = joined("\n[error] ", e.text.as_str());
            },
        },
    }
    let stdout = from_utf8_lossy(stdout);
    let mut stderr = from_utf8_lossy(stderr);
    stderr.append(extra_stderr.as_str());
    RunResponse { stdout, stderr, exit_code, duration_ms, timed_out, trapped, error: None }
}

/// Answers a request whose run never started.
pub fn setup_response(error: &SetupError, duration_ms: u128) -> (r: RunResponse)
    ensures
        r@ == setup_answer(error@, duration_ms),
        r.stdout@.len() == 0 && r.stderr@.len() == 0,
        r.exit_code is None && !r.timed_out && !r.trapped,
        r.duration_ms == duration_ms,
        r.error matches Some(text) && text@ == match *error {
            SetupError::PythonUnavailable => "python runtime not available"@,
            SetupError::JavascriptUnavailable => "javascript runtime not available"@,
            SetupError::Transpile(cause) => "typescript transpilation failed: "@ + cause@,
        },
{
    RunResponse {
        stdout: String::new(),
        stderr: String::new(),
        exit_code: None,
        duration_ms,
        timed_out: false,
        trapped: false,
        error: Some(error.message()),
    }
}

/// Answers a run that the host could not carry out.
pub fn host_response(error: &HostError, duration_ms: u128) -> (r: RunResponse)
    ensures
        r@ == host_answer(error.step, error.cause@, duration_ms),
        r.stdout@.len() == 0 && r.stderr@.len() == 0,
        r.exit_code is None && !r.timed_out && r.trapped,
        r.duration_ms == duration_ms,
        r.error matches Some(text) && text@ == "internal execution error: "@ + error.step.context()
            + error.cause@,
{
    let mut message = joined("internal execution error: ", error.step.introduction());
    message.append(error.cause.as_str());
    RunResponse {
        stdout: String::new(),
        stderr: String::new(),
        exit_code: None,
        duration_ms,
        timed_out: false,
        trapped: true,
        error: Some(message),
    }
}

} // verus!
