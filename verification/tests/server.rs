use code_sandbox::api::{Language, RunRequest, RunResponse};
use code_sandbox::limits::Limits;
use code_sandbox::runtime::{Sandbox, WasmFile};
use code_sandbox::server::{
    env_flag, existing, languages, reply, resolve, run, Body, Bundled, Environment,
};

fn sandbox(python: bool, qjs: bool) -> Sandbox {
    let file = |path: &str| WasmFile {
        path: path.to_string(),
        contents: Ok(b"\0asm\x01\0\0\0".to_vec()),
    };
    let (p, q) = (file("p"), file("q"));
    let result = Sandbox::new(
        if python { Some(&p) } else { None },
        if qjs { Some(&q) } else { None },
        Limits::default(),
    );
    result.ok().unwrap()
}

fn request(language: Language) -> RunRequest {
    RunRequest { language, code: String::new(), stdin: None, args: vec![], timeout_ms: None }
}

fn unset() -> Environment {
    Environment { python_wasm: None, qjs_wasm: None, py_packages: None, console: None, bind: None }
}

#[test]
fn languages_are_those_loaded() {
    assert_eq!(languages(&sandbox(true, true)), ["python", "typescript", "javascript"]);
    assert_eq!(languages(&sandbox(true, false)), ["python"]);
    assert_eq!(languages(&sandbox(false, true)), ["typescript", "javascript"]);
    assert!(languages(&sandbox(false, false)).is_empty());
}

#[test]
fn unavailable_language_is_refused() {
    for (language, name) in [
        (Language::Python, "Python"),
        (Language::Typescript, "Typescript"),
        (Language::Javascript, "Javascript"),
    ] {
        let answer = run(&sandbox(false, false), &request(language)).unwrap();
        assert_eq!(answer.status, 400);
        match answer.body {
            Body::Error(e) => {
                assert_eq!(e.error, format!("language {name} is not available on this server"))
            }
            Body::Run(_) => panic!("an error body is expected"),
        }
        assert_eq!(language.title(), format!("{language:?}"));
    }
}

#[test]
fn refused_iff_not_listed() {
    for python in [false, true] {
        for qjs in [false, true] {
            let s = sandbox(python, qjs);
            for lang in [Language::Python, Language::Typescript, Language::Javascript] {
                let listed = languages(&s).contains(&lang.name());
                assert_eq!(run(&s, &request(lang)).is_none(), listed);
            }
        }
    }
}

#[test]
fn completed_run_is_answered() {
    let resp = RunResponse {
        stdout: "o".to_string(),
        stderr: String::new(),
        exit_code: None,
        duration_ms: 3,
        timed_out: true,
        trapped: false,
        error: None,
    };
    let answer = reply(Ok(resp));
    assert_eq!(answer.status, 200);
    match answer.body {
        Body::Run(r) => assert!(r.stdout == "o" && r.timed_out && r.duration_ms == 3),
        Body::Error(_) => panic!("a run is expected"),
    }
}

#[test]
fn failed_task_is_answered() {
    let answer = reply(Err("task 1 panicked".to_string()));
    assert_eq!(answer.status, 500);
    match answer.body {
        Body::Error(e) => assert_eq!(e.error, "execution task failed: task 1 panicked"),
        Body::Run(_) => panic!("an error body is expected"),
    }
}

#[test]
fn flags() {
    for on in ["1", "true", "yes", "TRUE", "Yes", "yEs"] {
        assert!(env_flag(Some(on)));
    }
    for off in ["", "on", "ON", "0", "false", "no", "off", " 1", "true ", "11", "y", "\u{212a}"] {
        assert!(!env_flag(Some(off)));
    }
    assert!(!env_flag(None));
}

#[test]
fn bundled_paths() {
    assert_eq!(existing("a/b", true), Some("a/b".to_string()));
    assert_eq!(existing("a/b", false), None);
}

#[test]
fn bundled_files_are_the_default() {
    let bundled = Bundled { python_wasm: true, qjs_wasm: true, py_packages: true };
    let s = resolve(unset(), bundled).ok().unwrap();
    assert_eq!(s.python_wasm.as_deref(), Some("runtimes/python.wasm"));
    assert_eq!(s.qjs_wasm.as_deref(), Some("runtimes/qjs.wasm"));
    assert_eq!(s.py_packages.as_deref(), Some("runtimes/py-site-packages"));
    assert_eq!(s.bind, "127.0.0.1:8080");
    assert!(!s.console);
}

#[test]
fn set_variables_win() {
    let env = Environment {
        python_wasm: Some("p".to_string()),
        qjs_wasm: None,
        py_packages: Some(String::new()),
        console: Some("Yes".to_string()),
        bind: Some("0.0.0.0:1".to_string()),
    };
    let bundled = Bundled { python_wasm: true, qjs_wasm: false, py_packages: true };
    let s = resolve(env, bundled).ok().unwrap();
    assert_eq!(s.python_wasm.as_deref(), Some("p"));
    assert_eq!(s.qjs_wasm, None);
    assert_eq!(s.py_packages.as_deref(), Some(""));
    assert_eq!(s.bind, "0.0.0.0:1");
    assert!(s.console);
}

#[test]
fn no_interpreter_is_an_error() {
    let bundled = Bundled { python_wasm: false, qjs_wasm: false, py_packages: true };
    assert_eq!(
        resolve(unset(), bundled).err().unwrap(),
        "no runtimes found: set PYTHON_WASM and/or QJS_WASM, or place them in runtimes/"
    );
}

#[test]
fn server_that_starts_offers_a_language() {
    for (python_wasm, qjs_wasm) in [(true, false), (false, true), (true, true)] {
        let s = resolve(unset(), Bundled { python_wasm, qjs_wasm, py_packages: false });
        let s = s.ok().unwrap();
        let loaded = sandbox(s.python_wasm.is_some(), s.qjs_wasm.is_some());
        assert!(!languages(&loaded).is_empty());
    }
}
