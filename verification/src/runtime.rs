//! The sandbox: warm interpreters, and the launch order of each run.
//!
//! Each supported language maps to a WebAssembly interpreter (CPython for Python, QuickJS for
//! JavaScript and TypeScript). Interpreters are compiled once and shared by all runs. A run is
//! described by a [`Launch`], which the host carries out.
use vstd::math::{max, min};
use vstd::prelude::*;
use vstd::utf8::{encode_utf8, valid_utf8};
use wasmtime_wasi::pipe::MemoryOutputPipe;

use crate::api::{Language, RunResponse};
use crate::engine::{
    compile, drain, new_engine, output_pipe, pipe_bytes, pipe_capacity, Interpreter, WasmEngine,
    TRAP_INTERRUPT,
};
use crate::limits::{epoch_deadline, epochs, Limits, EPOCH_MS};
use crate::outcome::{
    ending, guest_answer, guest_response, CallError, SetupError, SetupErrorView,
};
use crate::text::{joined, lemma_texts_push, opt_str, result_text, texts, utf8_lossy};
use crate::transpile::{transpiled, typescript_to_js};

verus! {

/// An interpreter's file: where it lies, and its contents or why they could not be read.
pub struct WasmFile {
    pub path: String,
    pub contents: Result<Vec<u8>, String>,
}

/// Why a sandbox could not be set up.
#[derive(Debug)]
pub enum NewError {
    /// The engine could not be created.
    Engine(String),
    /// The interpreter at `path` could not be read or compiled.
    Module { path: String, cause: String },
}

impl NewError {
    /// The error as the operator reads it.
    pub open spec fn spec_message(&self) -> Seq<char> {
        match *self {
            NewError::Engine(cause) => "failed to create wasm engine: "@ + cause@,
            NewError::Module { path, cause } => "failed to compile module: "@ + path@ + ": "@
                + cause@,
        }
    }

    pub fn message(&self) -> (r: String)
        ensures
            r@ == self.spec_message(),
            r@ == match *self {
                NewError::Engine(cause) => "failed to create wasm engine: "@ + cause@,
                NewError::Module { path, cause } => "failed to compile module: "@ + path@ + ": "@
                    + cause@,
            },
    {
        match self {
            NewError::Engine(cause) => joined("failed to create wasm engine: ", cause.as_str()),
            NewError::Module { path, cause } => {
                let mut s = joined("failed to compile module: ", path.as_str());
                s.append(": ");
                s.append(cause.as_str());
                s
            },
        }
    }
}

/// A warm, ready-to-run sandbox.
pub struct Sandbox {
    engine: WasmEngine,
    python: Option<Interpreter>,
    qjs: Option<Interpreter>,
    limits: Limits,
}

/// What a [`Sandbox`] consists of.
pub struct SandboxView {
    pub engine: WasmEngine,
    pub python: Option<Interpreter>,
    pub qjs: Option<Interpreter>,
    pub limits: Limits,
}

impl View for Sandbox {
    type V = SandboxView;

    closed spec fn view(&self) -> SandboxView {
        SandboxView {
            engine: self.engine,
            python: self.python,
            qjs: self.qjs,
            limits: self.limits,
        }
    }
}

/// Another handle on an interpreter, if there is one.
fn share_loaded(loaded: &Option<Interpreter>) -> (r: Option<Interpreter>)
    ensures
        r == *loaded,
{
    match loaded {
        Some(interpreter) => Some(interpreter.share()),
        None => None,
    }
}

impl Clone for Sandbox {
    /// Another handle on the same engine and interpreters, with the same limits.
    fn clone(&self) -> (r: Self)
        ensures
            r@ == self@,
            forall|lang: Language| #[trigger] r@.supports(lang) == self@.supports(lang),
    {
        Sandbox {
            engine: self.engine.share(),
            python: share_loaded(&self.python),
            qjs: share_loaded(&self.qjs),
            limits: self.limits,
        }
    }
}

/// How a program is run: an interpreter, a source file, and an argument vector.
pub struct Plan {
    pub interpreter: Interpreter,
    /// The file's name inside the sandbox directory, and its contents.
    pub source_file: (String, String),
    /// The arguments passed to the guest; the first is the program name.
    pub argv: Vec<String>,
}

/// What a [`Plan`] says.
#[verifier::ext_equal]
pub struct PlanView {
    pub interpreter: Interpreter,
    pub file_name: Seq<char>,
    pub source: Seq<char>,
    pub argv: Seq<Seq<char>>,
}

impl View for Plan {
    type V = PlanView;

    open spec fn view(&self) -> PlanView {
        PlanView {
            interpreter: self.interpreter,
            file_name: self.source_file.0@,
            source: self.source_file.1@,
            argv: texts(self.argv@),
        }
    }
}

impl Plan {
    /// Whether this plan runs its source file by the interpreter that the sandbox has for `lang`,
    /// with the given arguments.
    pub open spec fn runs(&self, sandbox: SandboxView, lang: Language, args: Seq<String>) -> bool {
        let python = lang is Python;
        &&& Some(self.interpreter) == if python {
            sandbox.python
        } else {
            sandbox.qjs
        }
        &&& self.source_file.0@ == if python {
            "main.py"@
        } else {
            "main.js"@
        }
        &&& self.argv@.len() == args.len() + 2
        &&& self.argv@[0]@ == if python {
            "python"@
        } else {
            "qjs"@
        }
        &&& self.argv@[1]@ == if python {
            "/sandbox/main.py"@
        } else {
            "/sandbox/main.js"@
        }
        &&& forall|i: int| 0 <= i < args.len() ==> self.argv@[i + 2]@ == (#[trigger] args[i])@
    }
}

/// What planning came to.
pub open spec fn plan_view(r: Result<Plan, SetupError>) -> Result<PlanView, SetupErrorView> {
    match r {
        Ok(p) => Ok(p@),
        Err(e) => Err(e@),
    }
}

impl SandboxView {
    /// The interpreter that runs programs in `lang`, if it is loaded.
    pub open spec fn interpreter(self, lang: Language) -> Option<Interpreter> {
        match lang {
            Language::Python => self.python,
            Language::Javascript | Language::Typescript => self.qjs,
        }
    }

    /// Whether programs in `lang` can be run.
    pub open spec fn supports(self, lang: Language) -> bool {
        self.interpreter(lang) is Some
    }

    /// How a program in `lang` is run, given the source that the interpreter is to read, or why
    /// there is none.
    pub open spec fn plan(
        self,
        lang: Language,
        source: Result<Seq<char>, Seq<char>>,
        args: Seq<Seq<char>>,
    ) -> Result<PlanView, SetupErrorView> {
        match (self.interpreter(lang), source) {
            (None, _) => Err(
                if lang is Python {
                    SetupErrorView::PythonUnavailable
                } else {
                    SetupErrorView::JavascriptUnavailable
                },
            ),
            (Some(_), Err(cause)) => Err(SetupErrorView::Transpile(cause)),
            (Some(interpreter), Ok(source)) => Ok(
                PlanView {
                    interpreter,
                    file_name: file_name(lang),
                    source,
                    argv: seq![program_name(lang), guest_path(lang)] + args,
                },
            ),
        }
    }

    /// What a run amounts to: the launch order, or why there is none.
    pub open spec fn launch(
        self,
        plan: Result<PlanView, SetupErrorView>,
        stdin: Option<Seq<char>>,
        timeout_ms: Option<u64>,
    ) -> Result<LaunchView, SetupErrorView> {
        match plan {
            Err(e) => Err(e),
            Ok(plan) => Ok(
                LaunchView {
                    plan,
                    stdin: match stdin {
                        Some(text) => Some(encode_utf8(text)),
                        None => None,
                    },
                    timeout_ms: self.limits.deadline(timeout_ms),
                    epoch_deadline: epochs(self.limits.deadline(timeout_ms)),
                    memory_bytes: self.limits.memory_bytes as nat,
                    trap_on_grow_failure: true,
                    stdout_bytes: self.limits.output_bytes as nat,
                    stderr_bytes: self.limits.output_bytes as nat,
                    mounts: seq![MountView { guest_path: "/sandbox"@, writable: false }],
                },
            ),
        }
    }
}

/// What a caller asks to be run.
pub struct RequestView {
    pub language: Language,
    pub code: Seq<char>,
    pub stdin: Option<Seq<char>>,
    pub args: Seq<Seq<char>>,
    pub timeout_ms: Option<u64>,
}

impl SandboxView {
    /// The order to run what a caller asks for, or why it cannot be run.
    pub open spec fn order(self, request: RequestView) -> Result<LaunchView, SetupErrorView> {
        self.launch(
            self.plan(
                request.language,
                interpreted_source(request.language, request.code),
                request.args,
            ),
            request.stdin,
            request.timeout_ms,
        )
    }
}

/// The name that an interpreter of `lang` is called by.
pub open spec fn program_name(lang: Language) -> Seq<char> {
    match lang {
        Language::Python => "python"@,
        _ => "qjs"@,
    }
}

/// The name of the file that holds a program in `lang`.
pub open spec fn file_name(lang: Language) -> Seq<char> {
    match lang {
        Language::Python => "main.py"@,
        _ => "main.js"@,
    }
}

/// The path under which the guest sees its program.
pub open spec fn guest_path(lang: Language) -> Seq<char> {
    match lang {
        Language::Python => "/sandbox/main.py"@,
        _ => "/sandbox/main.js"@,
    }
}

/// The source that the interpreter of `lang` reads for the submitted `code`.
pub open spec fn interpreted_source(lang: Language, code: Seq<char>) -> Result<
    Seq<char>,
    Seq<char>,
> {
    match lang {
        Language::Typescript => transpiled(code),
        _ => Ok(code),
    }
}

/// A host directory that the guest sees. The only one is the directory with the program.
pub struct Mount {
    pub guest_path: String,
    pub writable: bool,
}

/// What a [`Mount`] says.
pub struct MountView {
    pub guest_path: Seq<char>,
    pub writable: bool,
}

impl View for Mount {
    type V = MountView;

    open spec fn view(&self) -> MountView {
        MountView { guest_path: self.guest_path@, writable: self.writable }
    }
}

/// The order to run one program.
pub struct Launch {
    pub plan: Plan,
    /// What is piped to the guest's stdin. With `None` it has no stdin.
    pub stdin: Option<Vec<u8>>,
    /// The wall-clock deadline, in milliseconds.
    pub timeout_ms: u64,
    /// The number of epochs, of [`EPOCH_MS`](crate::limits::EPOCH_MS) each, after which the guest
    /// is interrupted.
    pub epoch_deadline: u64,
    /// The cap on the guest's linear memory.
    pub memory_bytes: usize,
    /// Whether the guest traps when its memory would grow beyond the cap. It does.
    pub trap_on_grow_failure: bool,
    pub stdout: MemoryOutputPipe,
    pub stderr: MemoryOutputPipe,
    /// All the host directories that the guest sees.
    pub mounts: Vec<Mount>,
}

/// What a [`Launch`] says.
#[verifier::ext_equal]
pub struct LaunchView {
    pub plan: PlanView,
    pub stdin: Option<Seq<u8>>,
    pub timeout_ms: int,
    pub epoch_deadline: int,
    pub memory_bytes: nat,
    pub trap_on_grow_failure: bool,
    pub stdout_bytes: nat,
    pub stderr_bytes: nat,
    pub mounts: Seq<MountView>,
}

impl View for Launch {
    type V = LaunchView;

    open spec fn view(&self) -> LaunchView {
        LaunchView {
            plan: self.plan@,
            stdin: match self.stdin {
                Some(bytes) => Some(bytes@),
                None => None,
            },
            timeout_ms: self.timeout_ms as int,
            epoch_deadline: self.epoch_deadline as int,
            memory_bytes: self.memory_bytes as nat,
            trap_on_grow_failure: self.trap_on_grow_failure,
            stdout_bytes: pipe_capacity(self.stdout),
            stderr_bytes: pipe_capacity(self.stderr),
            mounts: self.mounts@.map_values(|m: Mount| m@),
        }
    }
}

/// What a run amounts to.
pub open spec fn launch_view(r: Result<Launch, SetupError>) -> Result<LaunchView, SetupErrorView> {
    match r {
        Ok(l) => Ok(l@),
        Err(e) => Err(e@),
    }
}

impl Launch {
    /// Whether this order keeps to the given limits, with the timeout that was asked for.
    pub open spec fn keeps_to(&self, limits: Limits, timeout_ms: Option<u64>) -> bool {
        let asked: int = match timeout_ms {
            Some(ms) => ms as int,
            None => limits.default_timeout_ms as int,
        };
        &&& self.timeout_ms == max(1, min(limits.max_timeout_ms as int, asked))
        &&& (self.epoch_deadline - 1) * EPOCH_MS >= self.timeout_ms
        &&& (self.epoch_deadline - 2) * EPOCH_MS < self.timeout_ms
        &&& self.memory_bytes == limits.memory_bytes
        &&& self.trap_on_grow_failure
        &&& pipe_capacity(self.stdout) == limits.output_bytes
        &&& pipe_capacity(self.stderr) == limits.output_bytes
        &&& self.mounts@.len() == 1
        &&& self.mounts@[0].guest_path@ == "/sandbox"@
        &&& !self.mounts@[0].writable
    }

    /// Answers the run once the guest has been called: `call` is how the call came back. The
    /// guest's output is what the two pipes hold, of which there is no more than they can take.
    pub fn finish(self, call: Result<(), CallError>, duration_ms: u128) -> (r: RunResponse)
        ensures
            r@ == guest_answer(
                ending(call),
                pipe_bytes(self.stdout),
                pipe_bytes(self.stderr),
                duration_ms,
            ),
            pipe_bytes(self.stdout).len() <= self@.stdout_bytes,
            pipe_bytes(self.stderr).len() <= self@.stderr_bytes,
            r.exit_code == match call {
                Ok(_) => Some(0i32),
                Err(e) => e.exit_status,
            },
            r.timed_out <==> (call matches Err(e) && e.exit_status is None && (
            e.trap matches Some(t) && t.spec_code() == TRAP_INTERRUPT)),
            r.trapped <==> r.exit_code is None && !r.timed_out,
            r.stdout@ == utf8_lossy(pipe_bytes(self.stdout)),
            utf8_lossy(pipe_bytes(self.stderr)).is_prefix_of(r.stderr@),
            !r.trapped ==> r.stderr@ == utf8_lossy(pipe_bytes(self.stderr)),
            r.duration_ms == duration_ms,
            r.error is None,
            valid_utf8(pipe_bytes(self.stdout)) ==> encode_utf8(r.stdout@) == pipe_bytes(
                self.stdout,
            ),
            valid_utf8(pipe_bytes(self.stderr)) && !r.trapped ==> encode_utf8(r.stderr@)
                == pipe_bytes(self.stderr),
    {
        let stdout = drain(self.stdout);
        let stderr = drain(self.stderr);
        guest_response(call, stdout.as_slice(), stderr.as_slice(), duration_ms)
    }
}

/// Whether `loaded` is what the given file holds, compiled for `engine`.
pub open spec fn loaded_from(
    loaded: Option<Interpreter>,
    file: Option<&WasmFile>,
    engine: WasmEngine,
) -> bool {
    match (loaded, file) {
        (Some(i), Some(f)) => {
            &&& i.engine() == engine.raw()
            &&& f.contents matches Ok(image) && i.image() == image@
        },
        (None, None) => true,
        _ => false,
    }
}

/// Whether an error that names `path` and `cause` is about the given file. The cause is that the
/// file could not be read, where that is so; else it is the engine's.
pub open spec fn blames(path: String, cause: String, file: Option<&WasmFile>) -> bool {
    match file {
        Some(f) => {
            &&& path@ == f.path@
            &&& f.contents matches Err(unread) ==> cause@ == unread@
        },
        None => false,
    }
}

/// What became of an interpreter's file: its path, and the interpreter or why there is none.
pub struct Load {
    pub path: String,
    pub result: Result<Interpreter, String>,
}

/// The interpreter that a load came to, if there was one.
pub open spec fn loaded(load: Option<Load>) -> Option<Interpreter> {
    match load {
        Some(l) => match l.result {
            Ok(interpreter) => Some(interpreter),
            Err(_) => None,
        },
        None => None,
    }
}

/// The error that a load came to, if it did.
pub open spec fn load_error(load: Option<Load>) -> Option<NewError> {
    match load {
        Some(l) => match l.result {
            Ok(_) => None,
            Err(cause) => Some(NewError::Module { path: l.path, cause }),
        },
        None => None,
    }
}

/// The first failure in setting up a sandbox: that of the engine, of the Python interpreter, or
/// of the JavaScript interpreter, in this order.
pub open spec fn first_failure(
    engine: Result<WasmEngine, String>,
    python: Option<Load>,
    qjs: Option<Load>,
) -> Option<NewError> {
    match (engine, load_error(python), load_error(qjs)) {
        (Err(cause), _, _) => Some(NewError::Engine(cause)),
        (Ok(_), Some(e), _) => Some(e),
        (Ok(_), None, e) => e,
    }
}

/// Compiles an interpreter's file, if it was read.
fn load(engine: &WasmEngine, file: Option<&WasmFile>) -> (r: Option<Load>)
    ensures
        match (r, file) {
            (Some(l), Some(f)) => {
                &&& l.path@ == f.path@
                &&& match (l.result, f.contents) {
                    (Ok(i), Ok(image)) => i.image() == image@ && i.engine() == engine.raw(),
                    (Ok(_), Err(_)) => false,
                    (Err(_), Ok(_)) => true,
                    (Err(cause), Err(unread)) => cause@ == unread@,
                }
            },
            (None, None) => true,
            _ => false,
        },
{
    match file {
        None => None,
        Some(f) => {
            let result = match &f.contents {
                Ok(image) => compile(engine, image.as_slice()),
                Err(unread) => Err(unread.clone()),
            };
            Some(Load { path: f.path.clone(), result })
        },
    }
}

/// Takes over what a load came to.
fn adopt(load: Option<Load>) -> (r: Result<Option<Interpreter>, NewError>)
    ensures
        match load_error(load) {
            Some(e) => r == Err::<Option<Interpreter>, NewError>(e),
            None => r == Ok::<Option<Interpreter>, NewError>(loaded(load)),
        },
{
    match load {
        None => Ok(None),
        Some(l) => match l.result {
            Ok(interpreter) => Ok(Some(interpreter)),
            Err(cause) => Err(NewError::Module { path: l.path, cause }),
        },
    }
}

impl Sandbox {
    /// Compiles the available interpreters up front, on an engine whose guests can be
    /// interrupted. The first file that cannot be read or compiled is the error. Whether the
    /// engine can be created and an image compiled is up to the machine; [`Sandbox::assemble`]
    /// says what follows from it.
    pub fn new(python_wasm: Option<&WasmFile>, qjs_wasm: Option<&WasmFile>, limits: Limits) -> (r:
        Result<Sandbox, NewError>)
        ensures
            match r {
                Ok(s) => {
                    &&& s@.engine.interruptible()
                    &&& loaded_from(s@.python, python_wasm, s@.engine)
                    &&& loaded_from(s@.qjs, qjs_wasm, s@.engine)
                    &&& s@.limits == limits
                },
                Err(NewError::Engine(_)) => true,
                Err(NewError::Module { path, cause }) => {
                    ||| blames(path, cause, python_wasm)
                    ||| {
                        &&& python_wasm matches Some(f) ==> f.contents is Ok
                        &&& blames(path, cause, qjs_wasm)
                    }
                },
            },
    {
        let engine = new_engine(true);
        let (python, qjs) = match &engine {
            Ok(engine) => (load(engine, python_wasm), load(engine, qjs_wasm)),
            Err(_) => (None, None),
        };
        Sandbox::assemble(engine, python, qjs, limits)
    }

    /// Makes a sandbox of its parts, if all of them are there; else the error is the first
    /// failure among them.
    pub fn assemble(
        engine: Result<WasmEngine, String>,
        python: Option<Load>,
        qjs: Option<Load>,
        limits: Limits,
    ) -> (r: Result<Sandbox, NewError>)
        ensures
            match first_failure(engine, python, qjs) {
                Some(e) => r == Err::<Sandbox, NewError>(e),
                None => r matches Ok(s) && engine matches Ok(e) && s@ == (SandboxView {
                    engine: e,
                    python: loaded(python),
                    qjs: loaded(qjs),
                    limits,
                }),
            },
    {
        let engine = match engine {
            Ok(engine) => engine,
            Err(cause) => {
                return Err(NewError::Engine(cause));
            },
        };
        let python = match adopt(python) {
            Ok(loaded) => loaded,
            Err(e) => {
                return Err(e);
            },
        };
        let qjs = match adopt(qjs) {
            Ok(loaded) => loaded,
            Err(e) => {
                return Err(e);
            },
        };
        Ok(Sandbox { engine, python, qjs, limits })
    }

    pub fn engine(&self) -> (r: &WasmEngine)
        ensures
            *r == self@.engine,
    {
        &self.engine
    }

    pub fn supports(&self, lang: Language) -> (r: bool)
        ensures
            r == self@.supports(lang),
            r <==> match lang {
                Language::Python => self@.python is Some,
                _ => self@.qjs is Some,
            },
    {
        match lang {
            Language::Python => self.python.is_some(),
            Language::Javascript | Language::Typescript => self.qjs.is_some(),
        }
    }

    /// Plans a program in `lang`, given the source that the interpreter is to read, or why there
    /// is none.
    pub fn plan_source(
        &self,
        lang: Language,
        source: Result<String, String>,
        args: &[String],
    ) -> (r: Result<Plan, SetupError>)
        ensures
            plan_view(r) == self@.plan(lang, result_text(source), texts(args@)),
            r is Ok <==> self@.supports(lang) && source is Ok,
            r matches Ok(p) ==> {
                &&& source matches Ok(s) && p.source_file.1@ == s@
                &&& p.runs(self@, lang, args@)
            },
    {
        let (loaded, program, file, path, missing) = match lang {
            Language::Python => (
                &self.python,
                "python",
                "main.py",
                "/sandbox/main.py",
                SetupError::PythonUnavailable,
            ),
            Language::Javascript | Language::Typescript => (
                &self.qjs,
                "qjs",
                "main.js",
                "/sandbox/main.js",
                SetupError::JavascriptUnavailable,
            ),
        };
        let interpreter = match loaded {
            Some(i) => i.share(),
            None => {
                return Err(missing);
            },
        };
        let source = match source {
            Ok(s) => s,
            Err(cause) => {
                return Err(SetupError::Transpile(cause));
            },
        };
        let mut argv: Vec<String> = Vec::new();
        argv.push(program.to_owned());
        argv.push(path.to_owned());
        let n: usize = args.len();
        let mut i: usize = 0;
        while i < n
            invariant
                n == args@.len(),
                i <= n,
                texts(argv@) =~= seq![program@, path@] + texts(args@.take(i as int)),
            decreases n - i,
        {
            proof {
                lemma_texts_push(argv@, args@[i as int]);
            }
            argv.push(args[i].clone());
            i = i + 1;
            proof {
                assert(args@.take(i as int) =~= args@.take(i - 1).push(args@[i - 1]));
                lemma_texts_push(args@.take(i - 1), args@[i - 1]);
            }
        }
        assert(args@.take(n as int) =~= args@);
        proof {
            let all = texts(argv@);
            assert(all[0] == program@ && all[1] == path@);
            assert forall|i: int| 0 <= i < args@.len() implies argv@[i + 2]@ == (
            #[trigger] args@[i])@ by {
                assert(all[i + 2] == texts(args@)[i]);
            }
        }
        Ok(Plan { interpreter, source_file: (file.to_owned(), source), argv })
    }

    /// Plans a program in `lang`, transpiling TypeScript if an interpreter for it is loaded.
    pub fn plan(&self, lang: Language, code: &str, args: &[String]) -> (r: Result<
        Plan,
        SetupError,
    >)
        ensures
            plan_view(r) == self@.plan(lang, interpreted_source(lang, code@), texts(args@)),
            lang !is Typescript ==> (r is Ok <==> self@.supports(lang)),
            r matches Ok(p) ==> {
                &&& lang !is Typescript ==> p.source_file.1@ == code@
                &&& lang is Typescript ==> transpiled(code@) == Ok::<Seq<char>, Seq<char>>(
                    p.source_file.1@,
                )
                &&& p.runs(self@, lang, args@)
            },
    {
        if lang == Language::Typescript {
            if !self.supports(lang) {
                return Err(SetupError::JavascriptUnavailable);
            }
            self.plan_source(lang, typescript_to_js(code), args)
        } else {
            self.plan_source(lang, Ok(code.to_owned()), args)
        }
    }

    /// The order to run a planned program.
    pub fn launch(&self, plan: Plan, stdin: Option<&str>, timeout_ms: Option<u64>) -> (r: Launch)
        ensures
            Ok::<LaunchView, SetupErrorView>(r@) == self@.launch(
                Ok(plan@),
                opt_str(stdin),
                timeout_ms,
            ),
            r.plan == plan,
            r.stdin is Some <==> stdin is Some,
            stdin matches Some(text) ==> (r.stdin matches Some(bytes) && bytes@ == encode_utf8(
                text@,
            )),
            r.keeps_to(self@.limits, timeout_ms),
    {
        let stdin = match stdin {
            Some(input) => Some(input.as_bytes_vec()),
            None => None,
        };
        let mut mounts: Vec<Mount> = Vec::new();
        mounts.push(Mount { guest_path: "/sandbox".to_owned(), writable: false });
        let timeout: u64 = self.limits.timeout(timeout_ms);
        let r = Launch {
            plan,
            stdin,
            timeout_ms: timeout,
            epoch_deadline: epoch_deadline(timeout),
            memory_bytes: self.limits.memory_bytes,
            trap_on_grow_failure: true,
            stdout: output_pipe(self.limits.output_bytes),
            stderr: output_pipe(self.limits.output_bytes),
            mounts,
        };
        assert(r@.mounts =~= seq![MountView { guest_path: "/sandbox"@, writable: false }]);
        r
    }

    /// Prepares the execution of a program: the order to run it, or why it cannot be run.
    pub fn execute(
        &self,
        lang: Language,
        code: &str,
        stdin: Option<&str>,
        args: &[String],
        timeout_ms: Option<u64>,
    ) -> (r: Result<Launch, SetupError>)
        ensures
            launch_view(r) == self@.order(
                RequestView {
                    language: lang,
                    code: code@,
                    stdin: opt_str(stdin),
                    args: texts(args@),
                    timeout_ms,
                },
            ),
            lang !is Typescript ==> (r is Ok <==> self@.supports(lang)),
            r matches Ok(l) ==> {
                &&& lang !is Typescript ==> l.plan.source_file.1@ == code@
                &&& lang is Typescript ==> transpiled(code@) == Ok::<Seq<char>, Seq<char>>(
                    l.plan.source_file.1@,
                )
                &&& l.plan.runs(self@, lang, args@)
                &&& l.stdin is Some <==> stdin is Some
                &&& stdin matches Some(text) ==> (l.stdin matches Some(bytes) && bytes@
                    == encode_utf8(text@))
                &&& l.keeps_to(self@.limits, timeout_ms)
            },
    {
        match self.plan(lang, code, args) {
            Ok(plan) => Ok(self.launch(plan, stdin, timeout_ms)),
            Err(e) => Err(e),
        }
    }
}

} // verus!
