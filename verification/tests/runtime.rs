use code_sandbox::api::Language;
use code_sandbox::limits::{epoch_deadline, Limits, EPOCH_MS};
use code_sandbox::outcome::SetupError;
use code_sandbox::runtime::{Load, NewError, Sandbox, WasmFile};
use wasmtime::ResourceLimiter;
use wasmtime_wasi::HostOutputStream;

fn wasm(path: &str, image: &[u8]) -> WasmFile {
    WasmFile { path: path.to_string(), contents: Ok(image.to_vec()) }
}

fn empty_module(path: &str) -> WasmFile {
    wasm(path, b"\0asm\x01\0\0\0")
}

fn python_only() -> Sandbox {
    Sandbox::new(Some(&empty_module("p.wasm")), None, Limits::default()).ok().unwrap()
}

fn qjs_only() -> Sandbox {
    Sandbox::new(None, Some(&empty_module("q.wasm")), Limits::default()).ok().unwrap()
}

fn strings(list: &[&str]) -> Vec<String> {
    list.iter().map(|s| s.to_string()).collect()
}

#[test]
fn default_limits() {
    let limits = Limits::default();
    assert_eq!(limits.default_timeout_ms, 5_000);
    assert_eq!(limits.max_timeout_ms, 30_000);
    assert_eq!(limits.memory_bytes, 268_435_456);
    assert_eq!(limits.output_bytes, 1_048_576);
}

#[test]
fn timeouts_are_clamped() {
    let limits = Limits::default();
    assert_eq!(limits.timeout(None), 5_000);
    assert_eq!(limits.timeout(Some(0)), 1);
    assert_eq!(limits.timeout(Some(1)), 1);
    assert_eq!(limits.timeout(Some(5_001)), 5_001);
    assert_eq!(limits.timeout(Some(30_000)), 30_000);
    assert_eq!(limits.timeout(Some(30_001)), 30_000);
    assert_eq!(limits.timeout(Some(u64::MAX)), 30_000);
    let limits = Limits { max_timeout_ms: 0, ..limits };
    assert_eq!(limits.timeout(None), 1);
    let limits = Limits { default_timeout_ms: 9, max_timeout_ms: 7, ..limits };
    assert_eq!(limits.timeout(None), 7);
}

#[test]
fn what_is_loaded_is_supported() {
    let s = python_only();
    assert!(s.supports(Language::Python));
    assert!(!s.supports(Language::Javascript));
    assert!(!s.supports(Language::Typescript));
    let s = qjs_only();
    assert!(!s.supports(Language::Python));
    assert!(s.supports(Language::Javascript));
    assert!(s.supports(Language::Typescript));
    let s = Sandbox::new(None, None, Limits::default()).ok().unwrap();
    assert!(!s.supports(Language::Python));
    assert!(!s.supports(Language::Javascript));
}

#[test]
fn each_language_gets_its_own_image() {
    let python = wasm("p.wat", b"(module (func (export \"py\")))");
    let qjs = wasm("q.wat", b"(module (func (export \"js\")))");
    let s = Sandbox::new(Some(&python), Some(&qjs), Limits::default()).ok().unwrap();
    for (lang, export) in [
        (Language::Python, "py"),
        (Language::Javascript, "js"),
        (Language::Typescript, "js"),
    ] {
        let plan = s.plan(lang, "1", &[]).ok().unwrap();
        assert!(plan.interpreter.module().get_export(export).is_some());
        assert!(wasmtime::Engine::same(plan.interpreter.module().engine(), s.engine().handle()));
    }
}

#[test]
fn timed_out_run_lasted_its_deadline() {
    for timeout_ms in [1, 9, 10, 11, 500, 30_000] {
        let mut elapsed_ms = 0;
        while elapsed_ms / EPOCH_MS + 1 < epoch_deadline(timeout_ms) {
            elapsed_ms += 1;
        }
        assert!(elapsed_ms >= timeout_ms);
        assert!(elapsed_ms < timeout_ms + EPOCH_MS);
    }
}

#[test]
fn epochs_cover_the_deadline() {
    for (timeout_ms, epochs) in [(1, 2), (9, 2), (10, 2), (11, 3), (500, 51), (30_000, 3_001)] {
        assert_eq!(epoch_deadline(timeout_ms), epochs);
        assert!((epochs - 1) * EPOCH_MS >= timeout_ms);
        assert!((epochs - 2) * EPOCH_MS < timeout_ms);
    }
    assert_eq!(epoch_deadline(0), 1);
    assert_eq!(epoch_deadline(u64::MAX), u64::MAX / 10 + 2);
}

#[test]
fn each_guest_is_interrupted_at_its_own_deadline() {
    let file = wasm("p.wat", b"(module (func (export \"step\")))");
    let s = Sandbox::new(Some(&file), None, Limits::default()).ok().unwrap();
    let engine = s.engine().handle();
    let start = |timeout_ms: u64| {
        let l = s.execute(Language::Python, "", None, &[], Some(timeout_ms)).ok().unwrap();
        let mut store = wasmtime::Store::new(engine, ());
        store.set_epoch_deadline(l.epoch_deadline);
        let module = l.plan.interpreter.module();
        let instance = wasmtime::Instance::new(&mut store, module, &[]).unwrap();
        let func = instance.get_typed_func::<(), ()>(&mut store, "step").unwrap();
        (store, func)
    };
    let (mut long_store, long) = start(1_000);
    let (mut short_store, short) = start(20);
    for _ in 0..2 {
        engine.increment_epoch();
        assert!(short.call(&mut short_store, ()).is_ok());
    }
    engine.increment_epoch();
    let err = short.call(&mut short_store, ()).unwrap_err();
    assert_eq!(err.downcast_ref::<wasmtime::Trap>(), Some(&wasmtime::Trap::Interrupt));
    assert!(long.call(&mut long_store, ()).is_ok());
}

#[test]
fn growing_beyond_the_cap_traps() {
    let limits = Limits { memory_bytes: 65_536, ..Limits::default() };
    let s = Sandbox::new(Some(&empty_module("p")), None, limits).ok().unwrap();
    let l = s.execute(Language::Python, "", None, &[], None).ok().unwrap();
    assert!(l.trap_on_grow_failure);
    let mut limiter = wasmtime::StoreLimitsBuilder::new()
        .memory_size(l.memory_bytes)
        .trap_on_grow_failure(l.trap_on_grow_failure)
        .build();
    assert!(limiter.memory_growing(0, 65_536, None).unwrap());
    assert!(limiter.memory_growing(65_536, 131_072, None).is_err());
}

#[test]
fn clone_is_the_same_sandbox() {
    let s = python_only();
    let c = s.clone();
    for lang in [Language::Python, Language::Javascript, Language::Typescript] {
        assert_eq!(s.supports(lang), c.supports(lang));
    }
    assert!(wasmtime::Engine::same(s.engine().handle(), c.engine().handle()));
    let a = s.execute(Language::Python, "1", Some("i"), &strings(&["x"]), None).ok().unwrap();
    assert!(c.execute(Language::Python, "other", None, &[], Some(7)).is_ok());
    assert!(c.execute(Language::Typescript, "let", None, &[], None).is_err());
    let b = c.execute(Language::Python, "1", Some("i"), &strings(&["x"]), None).ok().unwrap();
    assert_eq!(a.plan.source_file, b.plan.source_file);
    assert_eq!(a.plan.argv, b.plan.argv);
    assert_eq!(a.stdin, b.stdin);
    assert_eq!((a.timeout_ms, a.epoch_deadline), (b.timeout_ms, b.epoch_deadline));
}

#[test]
fn all_parts_are_needed() {
    let s = python_only();
    let plan = s.plan(Language::Python, "", &[]).ok().unwrap();
    let good = |path: &str| {
        Some(Load { path: path.to_string(), result: Ok(plan.interpreter.share()) })
    };
    let bad = |path: &str| Some(Load { path: path.to_string(), result: Err("no".to_string()) });
    let engine = || Ok(s.engine().share());
    let message = |r: Result<Sandbox, NewError>| r.err().unwrap().message();
    let limits = Limits::default();
    assert!(Sandbox::assemble(engine(), good("p"), good("q"), limits).is_ok());
    let python = Sandbox::assemble(engine(), good("p"), None, limits).ok().unwrap();
    assert!(python.supports(Language::Python) && !python.supports(Language::Javascript));
    assert_eq!(
        message(Sandbox::assemble(engine(), bad("p"), bad("q"), limits)),
        "failed to compile module: p: no"
    );
    assert_eq!(
        message(Sandbox::assemble(engine(), good("p"), bad("q"), limits)),
        "failed to compile module: q: no"
    );
    assert_eq!(
        message(Sandbox::assemble(Err("none".to_string()), bad("p"), good("q"), limits)),
        "failed to create wasm engine: none"
    );
}

#[test]
fn bad_image_is_an_error_that_names_the_file() {
    let err = Sandbox::new(Some(&wasm("bad.wasm", b"\0asm")), None, Limits::default()).err();
    match err {
        Some(NewError::Module { path, cause }) => {
            assert_eq!(path, "bad.wasm");
            assert!(!cause.is_empty());
            let e = NewError::Module { path, cause: "c".to_string() };
            assert_eq!(e.message(), "failed to compile module: bad.wasm: c");
        }
        _ => panic!("a module error is expected"),
    }
    let e = NewError::Engine("c".to_string());
    assert_eq!(e.message(), "failed to create wasm engine: c");
}

#[test]
fn first_file_that_fails_is_the_error() {
    let unread = |path: &str, why: &str| WasmFile {
        path: path.to_string(),
        contents: Err(why.to_string()),
    };
    let result =
        Sandbox::new(Some(&unread("a", "gone")), Some(&unread("b", "lost")), Limits::default());
    match result {
        Err(e) => assert_eq!(e.message(), "failed to compile module: a: gone"),
        Ok(_) => panic!("an error is expected"),
    }
    let result =
        Sandbox::new(Some(&empty_module("a")), Some(&unread("b", "lost")), Limits::default());
    match result {
        Err(e) => assert_eq!(e.message(), "failed to compile module: b: lost"),
        Ok(_) => panic!("an error is expected"),
    }
    let result =
        Sandbox::new(Some(&wasm("a", b"x")), Some(&wasm("b", b"y")), Limits::default());
    match result {
        Err(e) => assert!(e.message().starts_with("failed to compile module: a: ")),
        Ok(_) => panic!("an error is expected"),
    }
}

#[test]
fn python_plan() {
    let plan = python_only().plan(Language::Python, "print('hi')", &strings(&["a", "b c"]));
    let plan = plan.ok().unwrap();
    assert_eq!(plan.source_file, ("main.py".to_string(), "print('hi')".to_string()));
    assert_eq!(plan.argv, ["python", "/sandbox/main.py", "a", "b c"]);
}

#[test]
fn javascript_plan() {
    let plan = qjs_only().plan(Language::Javascript, "let x: number = 1", &[]).ok().unwrap();
    assert_eq!(plan.source_file, ("main.js".to_string(), "let x: number = 1".to_string()));
    assert_eq!(plan.argv, ["qjs", "/sandbox/main.js"]);
}

#[test]
fn typescript_plan_is_that_of_its_javascript() {
    let s = qjs_only();
    let ts = s.plan(Language::Typescript, "let x: number = 1", &strings(&["-v"])).ok().unwrap();
    assert_eq!(ts.source_file.1, "let x = 1;\n");
    let js = s.plan(Language::Javascript, "let x = 1;\n", &strings(&["-v"])).ok().unwrap();
    assert_eq!(ts.source_file, js.source_file);
    assert_eq!(ts.argv, js.argv);
}

#[test]
fn transpiler_error_stops_the_plan() {
    match qjs_only().plan(Language::Typescript, "let x: = 1", &[]) {
        Err(SetupError::Transpile(cause)) => assert!(cause.contains("main.ts:1:8")),
        _ => panic!("a transpiler error is expected"),
    }
    let plan = qjs_only().plan_source(Language::Typescript, Err("no".to_string()), &[]);
    assert_eq!(plan.err().unwrap().message(), "typescript transpilation failed: no");
}

#[test]
fn missing_interpreter_stops_the_plan() {
    let e = qjs_only().plan(Language::Python, "1", &[]).err().unwrap();
    assert_eq!(e.message(), "python runtime not available");
    let e = python_only().plan(Language::Javascript, "1", &[]).err().unwrap();
    assert_eq!(e.message(), "javascript runtime not available");
    let e = python_only().plan(Language::Typescript, "let x: = 1", &[]).err().unwrap();
    assert_eq!(e.message(), "javascript runtime not available");
}

#[test]
fn launch_carries_the_limits() {
    let limits =
        Limits { default_timeout_ms: 10, max_timeout_ms: 20, memory_bytes: 30, output_bytes: 4 };
    let s = Sandbox::new(Some(&empty_module("p")), None, limits).ok().unwrap();
    let l = s.execute(Language::Python, "1", Some("\u{e9}1"), &[], Some(99)).ok().unwrap();
    assert_eq!(l.stdin, Some(vec![0xc3, 0xa9, b'1']));
    assert_eq!(l.timeout_ms, 20);
    assert_eq!(l.memory_bytes, 30);
    assert_eq!(l.epoch_deadline, 3);
    assert!(l.trap_on_grow_failure);
    assert_eq!(l.mounts.len(), 1);
    assert_eq!(l.mounts[0].guest_path, "/sandbox");
    assert!(!l.mounts[0].writable);
    let program = format!("{}/{}", l.mounts[0].guest_path, l.plan.source_file.0);
    assert_eq!(l.plan.argv[1], program);
    let l = s.execute(Language::Python, "1", None, &[], None).ok().unwrap();
    assert_eq!(l.stdin, None);
    assert_eq!(l.timeout_ms, 10);
}

#[test]
fn output_is_captured_up_to_the_limit() {
    let limits = Limits { output_bytes: 4, ..Limits::default() };
    let s = Sandbox::new(Some(&empty_module("p")), None, limits).ok().unwrap();
    let l = s.execute(Language::Python, "1", None, &[], None).ok().unwrap();
    let (mut stdout, mut stderr) = (l.stdout.clone(), l.stderr.clone());
    assert_eq!(stdout.check_write().unwrap(), 4);
    stdout.write("out".into()).unwrap();
    assert!(stdout.write("put".into()).is_err());
    stdout.write("p".into()).unwrap();
    stderr.write("err".into()).unwrap();
    let r = l.finish(Ok(()), 7);
    assert_eq!(r.stdout, "outp");
    assert_eq!(r.stderr, "err");
    assert_eq!(r.exit_code, Some(0));
    assert_eq!(r.duration_ms, 7);
}

#[test]
fn unavailable_or_broken_programs_are_not_launched() {
    let s = python_only();
    assert!(s.execute(Language::Javascript, "1", None, &[], None).is_err());
    assert!(s.execute(Language::Python, "syntax error (", None, &[], None).is_ok());
    let s = qjs_only();
    assert!(s.execute(Language::Typescript, "let x: = 1", None, &[], None).is_err());
    assert!(s.execute(Language::Typescript, "let x: any = 1", None, &[], None).is_ok());
}

#[test]
fn requests_do_not_change_the_limits() {
    let s = python_only();
    let a = s.execute(Language::Python, "1", None, &[], Some(u64::MAX)).ok().unwrap();
    let b = s.execute(Language::Python, "2", Some("in"), &strings(&["x"]), Some(0)).ok().unwrap();
    assert_eq!(a.memory_bytes, b.memory_bytes);
    assert_eq!(a.trap_on_grow_failure, b.trap_on_grow_failure);
    assert_eq!((a.mounts.len(), b.mounts.len()), (1, 1));
    for mut pipe in [a.stdout, a.stderr, b.stdout, b.stderr] {
        assert_eq!(pipe.check_write().unwrap(), 1_048_576);
    }
    assert_eq!((a.timeout_ms, b.timeout_ms), (30_000, 1));
}
