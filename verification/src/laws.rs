//! What holds of the library as a whole.
use vstd::math::{max, min};
use vstd::prelude::*;
use vstd::utf8::{decode_utf8, encode_utf8, valid_utf8};

use crate::api::{Language, ResponseView, RunResponse};
use crate::engine::{trap_description, WasmEngine};
use crate::limits::{Limits, EPOCH_MS};
use crate::outcome::{
    answer, ending, guest_answer, CallError, EndingView, ExecutionEnd, HostStep, SetupError,
};
use crate::runtime::{
    file_name, first_failure, guest_path, interpreted_source, launch_view, load_error, loaded,
    loaded_from, Launch, LaunchView, Load, NewError, PlanView, RequestView, Sandbox, SandboxView,
    WasmFile,
};
use crate::server::{available, completion, flag_on, refusal, BodyView, Bundled, Environment};
use crate::text::{ascii_lower, is_white_space, lemma_trimmed, result_text, utf8_lossy};
use crate::transpile::{
    bytes_stack, is_blank, is_word_byte, settled, stack_needed, transpilable, transpiled,
    ts_transform,
};

verus! {

/// Every response tells exactly one thing: an exit code, a timeout, a trap, or, of a run that
/// never started, an error.
pub proof fn law_one_verdict(end: ExecutionEnd, duration_ms: u128)
    ensures
        ({
            let r = answer(end, duration_ms);
            let exited = r.exit_code is Some;
            let not_started = r.error is Some && !r.trapped;
            &&& exited || r.timed_out || r.trapped || not_started
            &&& exited ==> !r.timed_out && !r.trapped && !not_started
            &&& r.timed_out ==> !r.trapped && !not_started
        }),
{
}

/// A program that trapped or ran out of time has no exit code.
pub proof fn law_killed_has_no_exit_code(end: ExecutionEnd, duration_ms: u128)
    ensures
        ({
            let r = answer(end, duration_ms);
            r.timed_out || r.trapped ==> r.exit_code is None
        }),
{
}

/// An error is told of runs whose guest was never called, and of no other; such a run has no
/// output.
pub proof fn law_error_iff_guest_not_called(end: ExecutionEnd, duration_ms: u128)
    ensures
        ({
            let r = answer(end, duration_ms);
            &&& r.error is Some <==> !(end is Called)
            &&& r.error is Some ==> r.stdout.len() == 0 && r.stderr.len() == 0
        }),
{
}

/// What a guest wrote to stderr is not lost: the stderr of the response begins with it, and only
/// a trap adds anything.
pub proof fn law_stderr_is_kept(
    ending: EndingView,
    stdout: Seq<u8>,
    stderr: Seq<u8>,
    duration_ms: u128,
)
    ensures
        ({
            let r = answer(ExecutionEnd::Called(ending, stdout, stderr), duration_ms);
            &&& utf8_lossy(stderr).is_prefix_of(r.stderr)
            &&& !r.trapped ==> r.stderr == utf8_lossy(stderr)
        }),
{
}

/// A run gets at least one millisecond, and no more than the maximum.
pub proof fn law_deadline_in_range(limits: Limits, requested: Option<u64>)
    ensures
        limits.deadline(requested) >= 1,
        limits.max_timeout_ms >= 1 ==> limits.deadline(requested) <= limits.max_timeout_ms,
{
}

/// A timeout within the limits is granted as it is, and a request without one gets the default,
/// clamped in the same way.
pub proof fn law_deadline_as_asked(limits: Limits, ms: u64)
    ensures
        1 <= ms <= limits.max_timeout_ms ==> limits.deadline(Some(ms)) == ms,
        limits.deadline(None) == limits.deadline(Some(limits.default_timeout_ms)),
{
}

/// Asking for more time never gives less.
pub proof fn law_deadline_monotone(limits: Limits, a: u64, b: u64)
    requires
        a <= b,
    ensures
        limits.deadline(Some(a)) <= limits.deadline(Some(b)),
{
}

/// A run is not interrupted before its own deadline, and no later than two epochs after it: the
/// epochs that it is granted, but for the first, which has begun when it starts, cover the
/// deadline, and one epoch less would not.
pub proof fn law_epochs_cover_the_deadline(sandbox: SandboxView, request: RequestView)
    ensures
        sandbox.order(request) matches Ok(l) ==> {
            &&& (l.epoch_deadline - 1) * EPOCH_MS >= l.timeout_ms
            &&& (l.epoch_deadline - 2) * EPOCH_MS < l.timeout_ms
        },
{
}

/// The epochs that a run is granted end less than 20 milliseconds after its deadline, even if it
/// starts with a full one.
pub proof fn law_interrupted_soon_after_the_deadline(sandbox: SandboxView, request: RequestView)
    ensures
        sandbox.order(request) matches Ok(l) ==> l.timeout_ms < l.epoch_deadline * EPOCH_MS
            < l.timeout_ms + 20,
{
}

/// A run that is reported as timed out lasted at least its own deadline, whatever ran beside it.
/// It is interrupted when the shared clock has ticked as often as its order says, and at most one
/// tick more than the epochs that fit in its time can fall into it.
pub proof fn law_timed_out_run_lasted_its_deadline(
    sandbox: SandboxView,
    request: RequestView,
    ticks: int,
    elapsed_ms: int,
)
    requires
        elapsed_ms >= 0,
        ticks <= elapsed_ms / EPOCH_MS as int + 1,
    ensures
        sandbox.order(request) matches Ok(l) ==> (ticks >= l.epoch_deadline ==> elapsed_ms
            >= l.timeout_ms),
{
}

/// A guest whose memory would grow beyond the server's cap traps.
pub proof fn law_memory_cap_traps(sandbox: SandboxView, request: RequestView)
    ensures
        sandbox.order(request) matches Ok(l) ==> l.trap_on_grow_failure && l.memory_bytes
            == sandbox.limits.memory_bytes,
{
}

/// How a guest that reads neither clock nor randomness ends, and what it writes to stdout and
/// stderr: all that its order says decides it.
pub type Guest = spec_fn(LaunchView) -> (EndingView, Seq<u8>, Seq<u8>);

/// The response to a request, with such a guest.
pub open spec fn response(
    sandbox: SandboxView,
    request: RequestView,
    guest: Guest,
    duration_ms: u128,
) -> ResponseView {
    match sandbox.order(request) {
        Err(e) => answer(ExecutionEnd::NotStarted(e), duration_ms),
        Ok(l) => {
            let (ending, stdout, stderr) = guest(l);
            answer(ExecutionEnd::Called(ending, stdout, stderr), duration_ms)
        },
    }
}

/// Whether two responses agree in all but the time that the runs took.
pub open spec fn same_but_duration(a: ResponseView, b: ResponseView) -> bool {
    a == (ResponseView { duration_ms: a.duration_ms, ..b })
}

/// The responses to a series of requests on one sandbox, with the time that each took.
pub open spec fn responses(
    sandbox: SandboxView,
    series: Seq<(RequestView, u128)>,
    guest: Guest,
) -> Seq<ResponseView>
    decreases series.len(),
{
    if series.len() == 0 {
        Seq::empty()
    } else {
        responses(sandbox, series.drop_last(), guest).push(
            response(sandbox, series.last().0, guest, series.last().1),
        )
    }
}

/// Runs are independent: whatever ran before on a sandbox, a request is answered as if it were
/// the first, but for the time that it takes.
pub proof fn law_earlier_runs_leave_no_trace(
    sandbox: SandboxView,
    earlier: Seq<(RequestView, u128)>,
    request: RequestView,
    guest: Guest,
    duration_ms: u128,
    duration_alone_ms: u128,
)
    ensures
        same_but_duration(
            responses(sandbox, earlier.push((request, duration_ms)), guest).last(),
            response(sandbox, request, guest, duration_alone_ms),
        ),
{
    let series = earlier.push((request, duration_ms));
    assert(series.drop_last() =~= earlier);
}

/// Equal requests on one sandbox, or on a sandbox and its clone, give equal orders.
pub proof fn law_equal_requests_give_equal_orders(
    a: Sandbox,
    b: Sandbox,
    request: RequestView,
    first: Result<Launch, SetupError>,
    second: Result<Launch, SetupError>,
)
    requires
        a@ == b@,
        launch_view(first) == a@.order(request),
        launch_view(second) == b@.order(request),
    ensures
        launch_view(first) == launch_view(second),
        forall|lang: Language| #[trigger] a@.supports(lang) == b@.supports(lang),
{
}

/// TypeScript that transpiles is answered exactly as the JavaScript that it is lowered to, but
/// for the time that the run takes.
pub proof fn law_typescript_is_answered_as_javascript(
    sandbox: SandboxView,
    request: RequestView,
    js: Seq<char>,
    guest: Guest,
    duration_ts_ms: u128,
    duration_js_ms: u128,
)
    requires
        request.language is Typescript,
        transpiled(request.code) == Ok::<Seq<char>, Seq<char>>(js),
    ensures
        same_but_duration(
            response(sandbox, request, guest, duration_ts_ms),
            response(
                sandbox,
                RequestView { language: Language::Javascript, code: js, ..request },
                guest,
                duration_js_ms,
            ),
        ),
{
    law_typescript_runs_as_javascript(sandbox, request.code, js, request.args);
}

/// Transpiling leaves nothing behind: two calls on one source give the same, whatever was
/// transpiled between them.
pub proof fn law_transpiling_is_repeatable(
    source: Seq<char>,
    first: Result<String, String>,
    between: Seq<(Seq<char>, Result<String, String>)>,
    second: Result<String, String>,
)
    requires
        result_text(first) == transpiled(source),
        forall|i: int|
            0 <= i < between.len() ==> result_text(#[trigger] between[i].1) == transpiled(
                between[i].0,
            ),
        result_text(second) == transpiled(source),
    ensures
        result_text(first) == result_text(second),
{
}

/// Python is decided by the Python interpreter alone, JavaScript and TypeScript by the JavaScript
/// interpreter alone.
pub proof fn law_each_interpreter_decides_its_languages(a: SandboxView, b: SandboxView)
    ensures
        (a.python is Some <==> b.python is Some) ==> a.supports(Language::Python) == b.supports(
            Language::Python,
        ),
        (a.qjs is Some <==> b.qjs is Some) ==> a.supports(Language::Javascript) == b.supports(
            Language::Javascript,
        ) && a.supports(Language::Typescript) == b.supports(Language::Typescript),
{
}

/// A sandbox is set up exactly if the engine and every interpreter that was asked for are there.
/// The error is that of the engine first, then of Python, then of JavaScript.
pub proof fn law_set_up_iff_all_parts_are_there(
    engine: Result<WasmEngine, String>,
    python: Option<Load>,
    qjs: Option<Load>,
)
    ensures
        first_failure(engine, python, qjs) is None <==> {
            &&& engine is Ok
            &&& python matches Some(l) ==> l.result is Ok
            &&& qjs matches Some(l) ==> l.result is Ok
        },
        engine matches Err(cause) ==> first_failure(engine, python, qjs) == Some(
            NewError::Engine(cause),
        ),
        engine is Ok && (python matches Some(l) && l.result is Err) ==> first_failure(
            engine,
            python,
            qjs,
        ) == load_error(python),
{
}

/// A program in a language that is not supported is never launched. One in Python or JavaScript
/// is launched if the language is supported; one in TypeScript, if it also transpiles.
pub proof fn law_launched_iff_runnable(
    sandbox: SandboxView,
    lang: Language,
    code: Seq<char>,
    args: Seq<Seq<char>>,
    stdin: Option<Seq<char>>,
    timeout_ms: Option<u64>,
)
    ensures
        ({
            let plan = sandbox.plan(lang, interpreted_source(lang, code), args);
            sandbox.launch(plan, stdin, timeout_ms) is Ok <==> sandbox.supports(lang) && (
            lang is Typescript ==> transpiled(code) is Ok)
        }),
{
}

/// TypeScript runs exactly as the JavaScript that it is lowered to.
pub proof fn law_typescript_runs_as_javascript(
    sandbox: SandboxView,
    code: Seq<char>,
    js: Seq<char>,
    args: Seq<Seq<char>>,
)
    requires
        transpiled(code) == Ok::<Seq<char>, Seq<char>>(js),
    ensures
        sandbox.plan(
            Language::Typescript,
            interpreted_source(Language::Typescript, code),
            args,
        ) == sandbox.plan(
            Language::Javascript,
            interpreted_source(Language::Javascript, js),
            args,
        ),
{
}

/// The caller's arguments reach the program unchanged and in order, after the program name and
/// the path of the program.
pub proof fn law_args_reach_the_program(
    sandbox: SandboxView,
    lang: Language,
    source: Seq<char>,
    args: Seq<Seq<char>>,
)
    ensures
        sandbox.plan(lang, Ok(source), args) matches Ok(plan) ==> plan.argv.skip(2) == args
            && plan.argv.len() == args.len() + 2,
{
    if sandbox.supports(lang) {
        let plan = sandbox.plan(lang, Ok(source), args)->Ok_0;
        assert(plan.argv.skip(2) =~= args);
    }
}

/// The path that the interpreter is told to run is that of the staged source, in the directory
/// that the guest sees, and what is staged is the source that was planned.
pub proof fn law_the_staged_source_is_run(
    sandbox: SandboxView,
    lang: Language,
    source: Seq<char>,
    args: Seq<Seq<char>>,
    stdin: Option<Seq<char>>,
    timeout_ms: Option<u64>,
)
    ensures
        sandbox.launch(sandbox.plan(lang, Ok(source), args), stdin, timeout_ms) matches Ok(l)
            ==> l.plan.argv[1] == l.mounts[0].guest_path + "/"@ + l.plan.file_name
            && l.plan.source == source,
{
    reveal_strlit("/");
    reveal_strlit("/sandbox");
    reveal_strlit("main.py");
    reveal_strlit("main.js");
    reveal_strlit("/sandbox/main.py");
    reveal_strlit("/sandbox/main.js");
    assert(guest_path(lang) =~= "/sandbox"@ + "/"@ + file_name(lang));
}

/// A program is run by the interpreter that was loaded for its language, on the engine that this
/// interpreter was compiled for.
pub proof fn law_the_loaded_interpreter_is_run(
    sandbox: SandboxView,
    python: Option<&WasmFile>,
    qjs: Option<&WasmFile>,
    lang: Language,
    source: Result<Seq<char>, Seq<char>>,
    args: Seq<Seq<char>>,
)
    requires
        loaded_from(sandbox.python, python, sandbox.engine),
        loaded_from(sandbox.qjs, qjs, sandbox.engine),
    ensures
        sandbox.plan(lang, source, args) matches Ok(plan) ==> {
            let file = if lang is Python {
                python
            } else {
                qjs
            };
            &&& file matches Some(f) && f.contents matches Ok(image) && plan.interpreter.image()
                == image@
            &&& plan.interpreter.engine() == sandbox.engine.raw()
        },
{
}

/// The program reads from stdin the text that the caller sent, and has no stdin if there was
/// none.
pub proof fn law_stdin_reaches_the_program(
    sandbox: SandboxView,
    plan: PlanView,
    stdin: Option<Seq<char>>,
    timeout_ms: Option<u64>,
)
    ensures
        ({
            let l: LaunchView = sandbox.launch(Ok(plan), stdin, timeout_ms)->Ok_0;
            match stdin {
                Some(text) => l.stdin matches Some(bytes) && valid_utf8(bytes) && decode_utf8(bytes)
                    == text,
                None => l.stdin is None,
            }
        }),
{
    broadcast use {vstd::utf8::encode_utf8_valid_utf8, vstd::utf8::encode_utf8_decode_utf8};

}

/// The guest sees one host directory, and cannot write to it.
pub proof fn law_one_read_only_directory(
    sandbox: SandboxView,
    plan: PlanView,
    stdin: Option<Seq<char>>,
    timeout_ms: Option<u64>,
)
    ensures
        sandbox.launch(Ok(plan), stdin, timeout_ms) matches Ok(l) && l.mounts.len() == 1
            && !l.mounts[0].writable,
{
}

/// No request changes what a run may use: memory, output and directories are the same for all.
pub proof fn law_limits_are_the_servers(
    sandbox: SandboxView,
    plan1: PlanView,
    stdin1: Option<Seq<char>>,
    timeout1: Option<u64>,
    plan2: PlanView,
    stdin2: Option<Seq<char>>,
    timeout2: Option<u64>,
)
    ensures
        ({
            let a: LaunchView = sandbox.launch(Ok(plan1), stdin1, timeout1)->Ok_0;
            let b: LaunchView = sandbox.launch(Ok(plan2), stdin2, timeout2)->Ok_0;
            &&& a.memory_bytes == b.memory_bytes == sandbox.limits.memory_bytes
            &&& a.stdout_bytes == b.stdout_bytes == sandbox.limits.output_bytes
            &&& a.stderr_bytes == b.stderr_bytes == sandbox.limits.output_bytes
            &&& a.mounts == b.mounts
            &&& a.trap_on_grow_failure == b.trap_on_grow_failure
        }),
{
}

/// JavaScript and TypeScript are available together.
pub proof fn law_scripts_come_together(sandbox: SandboxView)
    ensures
        sandbox.supports(Language::Javascript) == sandbox.supports(Language::Typescript),
{
}

/// The languages that are listed are those that are supported.
pub proof fn law_listed_iff_supported(sandbox: SandboxView, lang: Language)
    ensures
        available(sandbox).contains(lang.spec_name()) <==> sandbox.supports(lang),
{
    reveal_strlit("python");
    reveal_strlit("typescript");
    reveal_strlit("javascript");
    let list = available(sandbox);
    assert("python"@ != "typescript"@) by {
        assert("python"@.len() != "typescript"@.len());
    }
    assert("python"@ != "javascript"@) by {
        assert("python"@.len() != "javascript"@.len());
    }
    assert("typescript"@ != "javascript"@) by {
        assert("typescript"@[0] != "javascript"@[0]);
    }
    if sandbox.supports(lang) {
        let python: int = if sandbox.supports(Language::Python) {
            1
        } else {
            0
        };
        let at: int = match lang {
            Language::Python => 0,
            Language::Typescript => python,
            Language::Javascript => python + 1,
        };
        assert(list[at] == lang.spec_name());
    }
}

/// A request is refused exactly if its language is not listed, and then with status 400.
pub proof fn law_refused_iff_not_listed(sandbox: SandboxView, lang: Language)
    ensures
        refusal(sandbox, lang) is Some <==> !available(sandbox).contains(lang.spec_name()),
        refusal(sandbox, lang) matches Some(reply) ==> reply.status == 400,
{
    law_listed_iff_supported(sandbox, lang);
}

/// A sandbox supports the languages whose interpreter it was given.
pub proof fn law_supports_what_was_loaded(
    sandbox: SandboxView,
    python: Option<&WasmFile>,
    qjs: Option<&WasmFile>,
)
    requires
        loaded_from(sandbox.python, python, sandbox.engine),
        loaded_from(sandbox.qjs, qjs, sandbox.engine),
    ensures
        sandbox.supports(Language::Python) <==> python is Some,
        sandbox.supports(Language::Javascript) <==> qjs is Some,
        sandbox.supports(Language::Typescript) <==> qjs is Some,
{
}

/// A server that starts offers at least one language.
pub proof fn law_a_server_offers_a_language(
    env: Environment,
    bundled: Bundled,
    sandbox: SandboxView,
    python: Option<&WasmFile>,
    qjs: Option<&WasmFile>,
)
    requires
        loaded_from(sandbox.python, python, sandbox.engine),
        loaded_from(sandbox.qjs, qjs, sandbox.engine),
        env.settings(bundled) matches Some(s) && (python is Some <==> s.python_wasm is Some) && (
        qjs is Some <==> s.qjs_wasm is Some),
    ensures
        available(sandbox).len() > 0,
{
}

/// A variable that is set is used as it is, whatever is bundled.
pub proof fn law_set_paths_win(env: Environment, bundled: Bundled)
    ensures
        env.settings(bundled) matches Some(s) ==> {
            &&& env.python_wasm matches Some(p) ==> s.python_wasm == Some(p@)
            &&& env.qjs_wasm matches Some(p) ==> s.qjs_wasm == Some(p@)
            &&& env.py_packages matches Some(p) ==> s.py_packages == Some(p@)
            &&& env.bind matches Some(addr) ==> s.bind == addr@
        },
{
}

/// The browser playground is off unless its flag is set.
pub proof fn law_console_is_opt_in(env: Environment, bundled: Bundled)
    requires
        env.console is None,
    ensures
        env.settings(bundled) matches Some(s) ==> !s.console,
{
}

/// The case of a flag's letters does not matter.
pub proof fn law_flags_ignore_case(a: Seq<char>, b: Seq<char>)
    requires
        a.map_values(|c: char| ascii_lower(c)) == b.map_values(|c: char| ascii_lower(c)),
    ensures
        flag_on(Some(a)) == flag_on(Some(b)),
{
}

/// The file that is staged holds the submitted code, character for character. For TypeScript it
/// holds the JavaScript that the transpiler reports for that code.
pub proof fn law_submitted_code_is_staged(sandbox: SandboxView, request: RequestView)
    ensures
        sandbox.order(request) matches Ok(l) ==> {
            &&& !(request.language is Typescript) ==> l.plan.source == request.code
            &&& request.language is Typescript ==> ts_transform(request.code, Some("main.ts"@)).0
                == Some(Ok::<Seq<char>, Seq<char>>(l.plan.source))
        },
{
}

/// Different programs are staged differently: in Python and JavaScript, two requests whose orders
/// hold the same source asked for the same code.
pub proof fn law_staging_loses_nothing(sandbox: SandboxView, a: RequestView, b: RequestView)
    requires
        !(a.language is Typescript),
        !(b.language is Typescript),
    ensures
        sandbox.order(a) matches Ok(l) ==> (sandbox.order(b) matches Ok(m) ==> (l.plan.source
            == m.plan.source ==> a.code == b.code)),
{
}

/// Python runs in the Python interpreter and the other languages in the JavaScript interpreter,
/// which is told to run the file that is staged, with the caller's arguments behind.
pub proof fn law_order_runs_the_staged_file(sandbox: SandboxView, request: RequestView)
    ensures
        sandbox.order(request) matches Ok(l) ==> {
            &&& request.language is Python ==> {
                &&& Some(l.plan.interpreter) == sandbox.python
                &&& l.plan.file_name == "main.py"@
                &&& l.plan.argv[0] == "python"@
                &&& l.plan.argv[1] == "/sandbox/main.py"@
            }
            &&& !(request.language is Python) ==> {
                &&& Some(l.plan.interpreter) == sandbox.qjs
                &&& l.plan.file_name == "main.js"@
                &&& l.plan.argv[0] == "qjs"@
                &&& l.plan.argv[1] == "/sandbox/main.js"@
            }
            &&& l.plan.argv.len() == request.args.len() + 2
            &&& forall|i: int|
                0 <= i < request.args.len() ==> l.plan.argv[i + 2] == #[trigger] request.args[i]
        },
{
}

/// The stdin of a run is the UTF-8 encoding of the text that its own request sent, and there is
/// none if the request sent none.
pub proof fn law_order_carries_its_stdin(sandbox: SandboxView, request: RequestView)
    ensures
        sandbox.order(request) matches Ok(l) ==> {
            &&& l.stdin is Some <==> request.stdin is Some
            &&& request.stdin matches Some(text) ==> (l.stdin matches Some(bytes) && valid_utf8(
                bytes,
            ) && decode_utf8(bytes) == text)
        },
{
    broadcast use {vstd::utf8::encode_utf8_valid_utf8, vstd::utf8::encode_utf8_decode_utf8};

}

/// The deadline of a run is the timeout that its own request asked for, or the default where it
/// asked for none, brought down to the maximum and up to one millisecond.
pub proof fn law_order_carries_its_deadline(sandbox: SandboxView, request: RequestView)
    ensures
        sandbox.order(request) matches Ok(l) ==> {
            let most = sandbox.limits.max_timeout_ms as int;
            let asked: int = match request.timeout_ms {
                Some(ms) => ms as int,
                None => sandbox.limits.default_timeout_ms as int,
            };
            &&& l.timeout_ms == max(1, min(most, asked))
            &&& 1 <= asked <= most ==> l.timeout_ms == asked
            &&& asked > most && most >= 1 ==> l.timeout_ms == most
            &&& asked < 1 || most < 1 ==> l.timeout_ms == 1
        },
{
}

/// Of two requests in the same circumstances, the one that asks for more time, up to the maximum,
/// gets more.
pub proof fn law_more_time_is_granted(
    sandbox: SandboxView,
    request: RequestView,
    a: u64,
    b: u64,
)
    requires
        1 <= a < b <= sandbox.limits.max_timeout_ms,
    ensures
        sandbox.order((RequestView { timeout_ms: Some(a), ..request })) matches Ok(l) ==> (
        sandbox.order((RequestView { timeout_ms: Some(b), ..request })) matches Ok(m) ==> {
            &&& l.timeout_ms < m.timeout_ms
            &&& l.epoch_deadline <= m.epoch_deadline
        }),
{
}

/// Every run has the server's memory cap, on which it traps, the server's cap on each output, and
/// one directory, which it cannot write to.
pub proof fn law_order_keeps_to_the_limits(sandbox: SandboxView, request: RequestView)
    ensures
        sandbox.order(request) matches Ok(l) ==> {
            &&& l.memory_bytes == sandbox.limits.memory_bytes
            &&& l.trap_on_grow_failure
            &&& l.stdout_bytes == sandbox.limits.output_bytes
            &&& l.stderr_bytes == sandbox.limits.output_bytes
            &&& l.mounts.len() == 1
            &&& l.mounts[0].guest_path == "/sandbox"@
            &&& !l.mounts[0].writable
        },
{
}

/// A program without an interpreter is not ordered, and the error says which interpreter is
/// missing, whatever its code. With an interpreter, Python and JavaScript are always ordered, and
/// TypeScript is unless it does not transpile; then the error ends with the reason.
pub proof fn law_why_there_is_no_order(
    sandbox: SandboxView,
    request: RequestView,
    duration_ms: u128,
)
    ensures
        ({
            let python = request.language is Python;
            let missing = if python {
                sandbox.python is None
            } else {
                sandbox.qjs is None
            };
            match sandbox.order(request) {
                Ok(_) => !missing,
                Err(e) => {
                    let text = answer(ExecutionEnd::NotStarted(e), duration_ms).error;
                    &&& missing || request.language is Typescript
                    &&& missing && python ==> text == Some("python runtime not available"@)
                    &&& missing && !python ==> text == Some("javascript runtime not available"@)
                    &&& !missing ==> (transpiled(request.code) matches Err(cause) && text == Some(
                        "typescript transpilation failed: "@ + cause,
                    ))
                },
            }
        }),
{
}

/// A source that the transpiler takes is lowered exactly if the transpiler reports code for it
/// under the name `main.ts` and its diagnostics are blank, and then to that code. In every other
/// case there is an error.
pub proof fn law_typescript_is_what_the_transpiler_reports(
    source: Seq<char>,
    r: Result<String, String>,
)
    requires
        result_text(r) == transpiled(source),
    ensures
        ({
            let (code, diagnostics) = ts_transform(source, Some("main.ts"@));
            let text = utf8_lossy(diagnostics);
            let blank = forall|i: int| 0 <= i < text.len() ==> is_white_space(#[trigger] text[i]);
            &&& r matches Ok(js) ==> blank && code == Some(Ok::<Seq<char>, Seq<char>>(js@))
            &&& transpilable(source) && blank ==> match code {
                Some(Ok(js)) => r matches Ok(out) && out@ == js,
                Some(Err(cause)) => r matches Err(e) && e@ == cause,
                None => r matches Err(e) && e@ == "the transpiler does not support this source"@,
            }
            &&& !blank ==> r is Err
        }),
{
    lemma_trimmed(utf8_lossy(ts_transform(source, Some("main.ts"@)).1));
}

/// The compile error that the caller gets is what the transpiler rendered: all of it but the white
/// space around it. The two places are where it starts and ends in what was rendered.
pub proof fn law_compile_error_is_what_was_rendered(
    source: Seq<char>,
    r: Result<String, String>,
) -> (at: (int, int))
    requires
        result_text(r) == transpiled(source),
    ensures
        ({
            let text = utf8_lossy(ts_transform(source, Some("main.ts"@)).1);
            &&& 0 <= at.0 <= at.1 <= text.len()
            &&& forall|i: int|
                (0 <= i < at.0 || at.1 <= i < text.len()) ==> is_white_space(#[trigger] text[i])
            &&& at.0 < at.1 ==> !is_white_space(text[at.0]) && !is_white_space(text[at.1 - 1])
            &&& transpilable(source) && at.0 < at.1 ==> (r matches Err(e) && e@ == text.subrange(
                at.0,
                at.1,
            ))
        }),
{
    lemma_trimmed(utf8_lossy(ts_transform(source, Some("main.ts"@)).1))
}

/// What a transpiler report amounts to: its code, where the diagnostics are blank and there is
/// code; else an error.
pub proof fn law_report_with_blank_diagnostics_gives_its_code(
    code: Option<Result<Seq<char>, Seq<char>>>,
    diagnostics: Seq<u8>,
)
    ensures
        ({
            let text = utf8_lossy(diagnostics);
            let blank = forall|i: int| 0 <= i < text.len() ==> is_white_space(#[trigger] text[i]);
            let r = settled((code, diagnostics));
            &&& blank && code is Some ==> Some(r) == code
            &&& r is Ok <==> blank && (code matches Some(Ok(_)))
        }),
{
    lemma_trimmed(utf8_lossy(diagnostics));
}

/// The stack for some bytes is four MiB, 16 KiB for each word byte, and 64 KiB for each other byte
/// that is not blank.
proof fn lemma_stack_is_counted(bytes: Seq<u8>)
    ensures
        bytes_stack(bytes) == 0x40_0000 + 0x4000 * bytes.filter(
            |b: u8| is_word_byte(b),
        ).len() + 0x1_0000 * bytes.filter(|b: u8| !is_word_byte(b) && !is_blank(b)).len(),
        bytes_stack(bytes) <= 0x40_0000 + 0x1_0000 * bytes.len(),
    decreases bytes.len(),
{
    reveal(Seq::filter);
    if bytes.len() > 0 {
        lemma_stack_is_counted(bytes.drop_last());
    }
}

/// The stack that is set aside for a source depends only on how many of its bytes are letters,
/// digits, underscores or beyond ASCII, and on how many are neither that nor blank. A source is
/// too large exactly if that stack is above two GiB or its bytes cannot be numbered.
pub proof fn law_stack_is_counted(source: Seq<char>)
    ensures
        ({
            let bytes = encode_utf8(source);
            let word = |b: u8|
                48 <= b <= 57 || 65 <= b <= 90 || b == 95 || 97 <= b <= 122 || b >= 128;
            let mark = |b: u8| !word(b) && b != 9 && b != 10 && b != 13 && b != 32;
            let stack = 0x40_0000 + 0x4000 * bytes.filter(word).len() + 0x1_0000 * bytes.filter(
                mark,
            ).len();
            &&& stack_needed(source) == stack
            &&& transpilable(source) <==> stack <= 0x8000_0000 && bytes.len() < 0xfffe_fffe
        }),
{
    let bytes = encode_utf8(source);
    lemma_stack_is_counted(bytes);
    let word = |b: u8| 48 <= b <= 57 || 65 <= b <= 90 || b == 95 || 97 <= b <= 122 || b >= 128;
    let mark = |b: u8| !word(b) && b != 9 && b != 10 && b != 13 && b != 32;
    assert(word =~= (|b: u8| is_word_byte(b)));
    assert(mark =~= (|b: u8| !is_word_byte(b) && !is_blank(b)));
}

/// A source of up to 32000 bytes is never too large, whatever it holds; one that is too large is
/// answered with an error that says so.
pub proof fn law_small_sources_are_taken(source: Seq<char>)
    ensures
        encode_utf8(source).len() <= 32_000 ==> transpilable(source),
        !transpilable(source) ==> transpiled(source) == Err::<Seq<char>, Seq<char>>(
            "the source is too large"@,
        ),
{
    lemma_stack_is_counted(encode_utf8(source));
}

/// A guest that exited by itself is reported with its own status, and one whose entry point
/// returned with zero. No other guest has an exit code.
pub proof fn law_own_exit_status_is_reported(
    call: Result<(), CallError>,
    stdout: Seq<u8>,
    stderr: Seq<u8>,
    duration_ms: u128,
    r: RunResponse,
)
    requires
        r@ == guest_answer(ending(call), stdout, stderr, duration_ms),
    ensures
        call is Ok ==> r.exit_code == Some(0i32),
        forall|e: CallError, s: i32|
            call == Err::<(), CallError>(e) && e.exit_status == Some(s) ==> r.exit_code == Some(s)
                && !r.timed_out && !r.trapped,
        call matches Err(e) && e.exit_status is None ==> r.exit_code is None,
        r.exit_code == Some(0i32) ==> call is Ok || (call matches Err(e) && e.exit_status == Some(
            0i32,
        )),
{
}

/// A guest is reported as timed out exactly if it did not exit and was interrupted, which is the
/// trap with code 10, and as trapped exactly if its call failed in any other way than these.
pub proof fn law_timed_out_iff_interrupted(
    call: Result<(), CallError>,
    stdout: Seq<u8>,
    stderr: Seq<u8>,
    duration_ms: u128,
    r: RunResponse,
)
    requires
        r@ == guest_answer(ending(call), stdout, stderr, duration_ms),
    ensures
        ({
            let failed = call matches Err(e) && e.exit_status is None;
            let interrupted = call matches Err(e) && (e.trap matches Some(t) && t.spec_code()
                == 10);
            &&& r.timed_out <==> failed && interrupted
            &&& r.trapped <==> failed && !interrupted
            &&& r.error is None
        }),
{
}

/// The output of a guest is reported as it was written, each stream in its own place, and with
/// the time that the run took. Only a trap adds to stderr: a note that names the trap, or holds
/// the whole error where there was none.
pub proof fn law_output_is_reported(
    call: Result<(), CallError>,
    stdout: Seq<u8>,
    stderr: Seq<u8>,
    duration_ms: u128,
    r: RunResponse,
)
    requires
        r@ == guest_answer(ending(call), stdout, stderr, duration_ms),
    ensures
        r.stdout@ == utf8_lossy(stdout),
        r.duration_ms == duration_ms,
        !r.trapped ==> r.stderr@ == utf8_lossy(stderr),
        r.trapped ==> (call matches Err(e) && match e.trap {
            Some(t) => r.stderr@ == utf8_lossy(stderr) + ("\n[trap] "@ + trap_description(
                t.spec_code(),
            )),
            None => r.stderr@ == utf8_lossy(stderr) + ("\n[error] "@ + e.text@),
        }),
{
}

/// Two guests that exited with different statuses, and are alike in all else, are answered
/// differently.
pub proof fn law_exit_statuses_are_told_apart(
    first: i32,
    second: i32,
    stdout: Seq<u8>,
    stderr: Seq<u8>,
    duration_ms: u128,
)
    requires
        answer(ExecutionEnd::Called(EndingView::Exited(first), stdout, stderr), duration_ms)
            == answer(ExecutionEnd::Called(EndingView::Exited(second), stdout, stderr), duration_ms),
    ensures
        first == second,
{
}

/// A run that never started is answered without output and exit code, with the time that it took
/// and an error that says why; so is a run that the host could not carry out, which counts as
/// trapped.
pub proof fn law_failures_are_told(
    error: SetupError,
    step: HostStep,
    cause: Seq<char>,
    duration_ms: u128,
)
    ensures
        ({
            let r = answer(ExecutionEnd::NotStarted(error@), duration_ms);
            &&& r.stdout.len() == 0 && r.stderr.len() == 0 && r.exit_code is None
            &&& !r.timed_out && !r.trapped && r.duration_ms == duration_ms
            &&& r.error == Some(
                match error {
                    SetupError::PythonUnavailable => "python runtime not available"@,
                    SetupError::JavascriptUnavailable => "javascript runtime not available"@,
                    SetupError::Transpile(why) => "typescript transpilation failed: "@ + why@,
                },
            )
        }),
        ({
            let r = answer(ExecutionEnd::HostFailed(step, cause), duration_ms);
            &&& r.stdout.len() == 0 && r.stderr.len() == 0 && r.exit_code is None
            &&& !r.timed_out && r.trapped && r.duration_ms == duration_ms
            &&& r.error == Some(
                "internal execution error: "@ + match step {
                    HostStep::CreateDir => "failed to create sandbox dir: "@,
                    HostStep::StageSource => "failed to stage source: "@,
                    HostStep::MountDir | HostStep::Link => ""@,
                    HostStep::Instantiate => "failed to instantiate module: "@,
                    HostStep::FindStart => "module has no _start export: "@,
                } + cause,
            )
        }),
{
}

/// A request whose task came back is answered with status 200 and the response that it came back
/// with, whatever that says. Status 500 is given exactly if the task failed, with the reason.
pub proof fn law_finished_runs_are_answered(result: Result<ResponseView, Seq<char>>)
    ensures
        ({
            let r = completion(result);
            &&& r.status == 200 <==> result is Ok
            &&& r.status == 500 <==> result is Err
            &&& result matches Ok(resp) ==> r.body == BodyView::Run(resp)
            &&& result matches Err(cause) ==> r.body == BodyView::Error(
                "execution task failed: "@ + cause,
            )
        }),
{
}

/// The status of an answer says nothing about the program: two runs that came back are answered
/// with the same status, whatever became of them.
pub proof fn law_status_is_blind_to_the_program(a: ResponseView, b: ResponseView)
    ensures
        completion(Ok(a)).status == completion(Ok(b)).status,
        completion(Ok(a)).body == completion(Ok(b)).body ==> a == b,
{
}

/// A request is refused exactly if there is no interpreter for its language, with status 400 and
/// an error that names the language.
pub proof fn law_refused_iff_no_interpreter(sandbox: SandboxView, lang: Language)
    ensures
        refusal(sandbox, lang) is None <==> if lang is Python {
            sandbox.python is Some
        } else {
            sandbox.qjs is Some
        },
        refusal(sandbox, lang) matches Some(r) ==> r.status == 400 && r.body == BodyView::Error(
            "language "@ + match lang {
                Language::Python => "Python"@,
                Language::Typescript => "Typescript"@,
                Language::Javascript => "Javascript"@,
            } + " is not available on this server"@,
        ),
{
}

/// The list of languages has Python if its interpreter is loaded, and then TypeScript and
/// JavaScript if theirs is, and nothing else.
pub proof fn law_languages_are_those_loaded(sandbox: SandboxView)
    ensures
        ({
            let scripts = seq!["typescript"@, "javascript"@];
            available(sandbox) == match (sandbox.python is Some, sandbox.qjs is Some) {
                (true, true) => seq!["python"@] + scripts,
                (true, false) => seq!["python"@],
                (false, true) => scripts,
                (false, false) => seq![],
            }
        }),
{
    let scripts = seq!["typescript"@, "javascript"@];
    if sandbox.python is Some && sandbox.qjs is Some {
        assert(available(sandbox) =~= seq!["python"@] + scripts);
    } else if sandbox.python is Some {
        assert(available(sandbox) =~= seq!["python"@]);
    } else if sandbox.qjs is Some {
        assert(available(sandbox) =~= scripts);
    } else {
        assert(available(sandbox) =~= seq![]);
    }
}

/// A server starts exactly if an interpreter is set or bundled. A path that is not set is the
/// bundled one where that is present, and else there is none; without an address the server
/// listens on the loopback interface.
pub proof fn law_settings_fall_back_on_what_is_bundled(env: Environment, bundled: Bundled)
    ensures
        env.settings(bundled) is None <==> env.python_wasm is None && env.qjs_wasm is None
            && !bundled.python_wasm && !bundled.qjs_wasm,
        env.settings(bundled) matches Some(s) ==> {
            &&& env.python_wasm is None ==> s.python_wasm == if bundled.python_wasm {
                Some("runtimes/python.wasm"@)
            } else {
                None
            }
            &&& env.qjs_wasm is None ==> s.qjs_wasm == if bundled.qjs_wasm {
                Some("runtimes/qjs.wasm"@)
            } else {
                None
            }
            &&& env.py_packages is None ==> s.py_packages == if bundled.py_packages {
                Some("runtimes/py-site-packages"@)
            } else {
                None
            }
            &&& env.bind is None ==> s.bind == "127.0.0.1:8080"@
            &&& env.console is None ==> !s.console
            &&& env.console matches Some(value) ==> s.console == flag_on(Some(value@))
        },
{
}

proof fn lemma_lower_letter(c: char, small: char, capital: char)
    requires
        'a' <= small <= 'z',
        capital as int == small as int - 32,
    ensures
        ascii_lower(c) == small <==> c == small || c == capital,
{
}

/// A flag is on exactly if its value is `1`, or the word `true` or `yes` in any mixture of small
/// and capital letters.
pub proof fn law_flag_values(t: Seq<char>)
    ensures
        flag_on(Some(t)) <==> {
            ||| t.len() == 1 && t[0] == '1'
            ||| {
                &&& t.len() == 4
                &&& t[0] == 't' || t[0] == 'T'
                &&& t[1] == 'r' || t[1] == 'R'
                &&& t[2] == 'u' || t[2] == 'U'
                &&& t[3] == 'e' || t[3] == 'E'
            }
            ||| {
                &&& t.len() == 3
                &&& t[0] == 'y' || t[0] == 'Y'
                &&& t[1] == 'e' || t[1] == 'E'
                &&& t[2] == 's' || t[2] == 'S'
            }
        },
        !flag_on(None),
{
    reveal_strlit("1");
    reveal_strlit("true");
    reveal_strlit("yes");
    let lower = t.map_values(|c: char| ascii_lower(c));
    assert("1"@.len() == 1 && "true"@.len() == 4 && "yes"@.len() == 3);
    if t.len() == 1 {
        assert(lower[0] == ascii_lower(t[0]));
        if t[0] == '1' {
            assert(lower =~= "1"@);
        } else {
            assert(lower[0] != "1"@[0]);
        }
    } else if t.len() == 4 {
        lemma_lower_letter(t[0], 't', 'T');
        lemma_lower_letter(t[1], 'r', 'R');
        lemma_lower_letter(t[2], 'u', 'U');
        lemma_lower_letter(t[3], 'e', 'E');
        if lower[0] == 't' && lower[1] == 'r' && lower[2] == 'u' && lower[3] == 'e' {
            assert(lower =~= "true"@);
        } else {
            assert(lower != "true"@);
        }
    } else if t.len() == 3 {
        lemma_lower_letter(t[0], 'y', 'Y');
        lemma_lower_letter(t[1], 'e', 'E');
        lemma_lower_letter(t[2], 's', 'S');
        if lower[0] == 'y' && lower[1] == 'e' && lower[2] == 's' {
            assert(lower =~= "yes"@);
        } else {
            assert(lower != "yes"@);
        }
    }
}

/// The error of a sandbox that could not be set up names the file, where one is at fault, and
/// ends with the cause.
pub proof fn law_setup_errors_are_told(path: String, cause: String)
    ensures
        NewError::Engine(cause).spec_message() == "failed to create wasm engine: "@ + cause@,
        (NewError::Module { path, cause }).spec_message() == "failed to compile module: "@ + path@
            + ": "@ + cause@,
{
}

/// A setup that fails names the first part that is missing: the engine, else the file of the
/// Python interpreter, else that of the JavaScript interpreter, each with its own cause. One that
/// succeeds takes over what each file was compiled to.
pub proof fn law_setup_blames_the_first_missing_part(
    engine: Result<WasmEngine, String>,
    python: Option<Load>,
    qjs: Option<Load>,
)
    ensures
        ({
            let first = first_failure(engine, python, qjs);
            let python_failed = python matches Some(l) && l.result is Err;
            &&& engine matches Err(cause) ==> first == Some(NewError::Engine(cause))
            &&& engine is Ok ==> (python matches Some(l) ==> (l.result matches Err(cause) ==> first
                == Some(NewError::Module { path: l.path, cause })))
            &&& engine is Ok && !python_failed ==> (qjs matches Some(l) ==> (l.result matches Err(
                cause,
            ) ==> first == Some(NewError::Module { path: l.path, cause })))
        }),
        loaded(python) is Some <==> (python matches Some(l) && l.result is Ok),
        python matches Some(l) ==> (l.result matches Ok(i) ==> loaded(python) == Some(i)),
        loaded(qjs) is Some <==> (qjs matches Some(l) && l.result is Ok),
        qjs matches Some(l) ==> (l.result matches Ok(i) ==> loaded(qjs) == Some(i)),
{
}

} // verus!
