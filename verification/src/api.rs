//! Request and response types of the sandbox API.
use vstd::prelude::*;

verus! {

/// A language that a program can be submitted in.
#[derive(Debug, Clone, Copy, PartialEq, Eq, Structural)]
pub enum Language {
    Python,
    Typescript,
    Javascript,
}

impl Language {
    /// The name under which the language is advertised to callers.
    pub open spec fn spec_name(self) -> Seq<char> {
        match self {
            Language::Python => "python"@,
            Language::Typescript => "typescript"@,
            Language::Javascript => "javascript"@,
        }
    }

    /// The name that error messages use.
    pub open spec fn spec_title(self) -> Seq<char> {
        match self {
            Language::Python => "Python"@,
            Language::Typescript => "Typescript"@,
            Language::Javascript => "Javascript"@,
        }
    }

    pub fn name(self) -> (r: &'static str)
        ensures
            r@ == self.spec_name(),
            r@ == match self {
                Language::Python => "python"@,
                Language::Typescript => "typescript"@,
                Language::Javascript => "javascript"@,
            },
    {
        match self {
            Language::Python => "python",
            Language::Typescript => "typescript",
            Language::Javascript => "javascript",
        }
    }

    pub fn title(self) -> (r: &'static str)
        ensures
            r@ == self.spec_title(),
            r@ == match self {
                Language::Python => "Python"@,
                Language::Typescript => "Typescript"@,
                Language::Javascript => "Javascript"@,
            },
    {
        match self {
            Language::Python => "Python",
            Language::Typescript => "Typescript",
            Language::Javascript => "Javascript",
        }
    }
}

/// A code execution request.
#[derive(Debug)]
pub struct RunRequest {
    pub language: Language,
    /// Source code to execute.
    pub code: String,
    /// Optional data piped to the program's stdin.
    pub stdin: Option<String>,
    /// Extra CLI-style args exposed to the program.
    pub args: Vec<String>,
    /// Wall-clock timeout in milliseconds. Clamped to a server maximum.
    pub timeout_ms: Option<u64>,
}

/// The result of executing a program.
#[derive(Debug)]
pub struct RunResponse {
    pub stdout: String,
    pub stderr: String,
    /// Process exit code. `None` when the program trapped or was killed.
    pub exit_code: Option<i32>,
    pub duration_ms: u128,
    /// True when the run exceeded its wall-clock deadline.
    pub timed_out: bool,
    /// True when the guest exceeded its memory limit or otherwise trapped.
    pub trapped: bool,
    /// Populated with the transpiler / setup error when a run never started.
    pub error: Option<String>,
}

/// What a [`RunResponse`] says, with its texts as character sequences.
#[verifier::ext_equal]
pub struct ResponseView {
    pub stdout: Seq<char>,
    pub stderr: Seq<char>,
    pub exit_code: Option<i32>,
    pub duration_ms: u128,
    pub timed_out: bool,
    pub trapped: bool,
    pub error: Option<Seq<char>>,
}

impl View for RunResponse {
    type V = ResponseView;

    open spec fn view(&self) -> ResponseView {
        ResponseView {
            stdout: self.stdout@,
            stderr: self.stderr@,
            exit_code: self.exit_code,
            duration_ms: self.duration_ms,
            timed_out: self.timed_out,
            trapped: self.trapped,
            error: match self.error {
                Some(e) => Some(e@),
                None => None,
            },
        }
    }
}

/// The body of an answer that carries no run.
#[derive(Debug)]
pub struct ErrorResponse {
    pub error: String,
}

} // verus!
