use code_sandbox::api::RunResponse;
use code_sandbox::engine::{TrapReport, TRAP_INTERRUPT, TRAP_LAST};
use code_sandbox::outcome::{
    guest_response, host_response, setup_response, CallError, HostError, HostStep, SetupError,
};
use wasmtime::Trap;

fn failed(exit_status: Option<i32>, trap: Option<Trap>, text: &str) -> Result<(), CallError> {
    let trap = trap.map(|t| TrapReport::from_code(t as u8).unwrap());
    Err(CallError { exit_status, trap, text: text.to_string() })
}

fn verdicts(r: &RunResponse) -> usize {
    usize::from(r.exit_code.is_some())
        + usize::from(r.timed_out)
        + usize::from(r.trapped)
        + usize::from(r.error.is_some() && !r.trapped)
}

#[test]
fn return_is_exit_zero() {
    let r = guest_response(Ok(()), b"hi\n", b"", 26);
    assert_eq!(r.stdout, "hi\n");
    assert_eq!(r.stderr, "");
    assert_eq!(r.exit_code, Some(0));
    assert_eq!(r.duration_ms, 26);
    assert!(!r.timed_out && !r.trapped && r.error.is_none());
}

#[test]
fn exit_status_is_passed_on() {
    let r = guest_response(failed(Some(3), None, "Exited with i32 exit status 3"), b"", b"e", 1);
    assert_eq!(r.exit_code, Some(3));
    assert_eq!(r.stderr, "e");
    assert_eq!(verdicts(&r), 1);
    let r = guest_response(failed(Some(-1), Some(Trap::Interrupt), "x"), b"", b"", 1);
    assert_eq!(r.exit_code, Some(-1));
    assert!(!r.timed_out);
}

#[test]
fn interrupt_is_a_timeout() {
    assert_eq!(Trap::Interrupt as u8, TRAP_INTERRUPT);
    let r = guest_response(failed(None, Some(Trap::Interrupt), "t"), b"part", b"err", 500);
    assert!(r.timed_out);
    assert!(!r.trapped);
    assert_eq!(r.exit_code, None);
    assert_eq!(r.stdout, "part");
    assert_eq!(r.stderr, "err");
}

#[test]
fn other_traps_are_noted() {
    let call = failed(None, Some(Trap::IntegerDivisionByZero), "t");
    let r = guest_response(call, b"", b"err", 5);
    assert!(r.trapped);
    assert!(!r.timed_out);
    assert_eq!(r.exit_code, None);
    assert_eq!(r.stderr, "err\n[trap] wasm trap: integer divide by zero");
    assert_eq!(r.error, None);
}

#[test]
fn other_errors_are_noted() {
    let r = guest_response(failed(None, None, "outer: inner"), b"", b"", 5);
    assert!(r.trapped);
    assert_eq!(r.stderr, "\n[error] outer: inner");
    assert_eq!(verdicts(&r), 1);
}

#[test]
fn every_trap_has_the_description_that_the_engine_gives() {
    let mut known = 0;
    for code in 0..=u8::MAX {
        let report = TrapReport::from_code(code);
        assert_eq!(report.is_some(), Trap::from_u8(code).is_some());
        assert_eq!(report.is_some(), code <= TRAP_LAST);
        if let Some(report) = report {
            known += 1;
            let trap = Trap::from_u8(code).unwrap();
            assert_eq!(report.note(), format!("\n[trap] {trap}"));
            assert_eq!(report.is_interrupt(), trap == Trap::Interrupt);
        }
    }
    assert_eq!(known, 19);
}

#[test]
fn output_that_is_not_utf8_is_replaced() {
    let r = guest_response(Ok(()), b"a\xffb", "\u{e9}".as_bytes(), 0);
    assert_eq!(r.stdout, "a\u{fffd}b");
    assert_eq!(r.stderr, "\u{e9}");
}

#[test]
fn setup_errors_are_told() {
    let r = setup_response(&SetupError::PythonUnavailable, 2);
    assert_eq!(r.error.as_deref(), Some("python runtime not available"));
    assert_eq!((r.stdout.as_str(), r.stderr.as_str(), r.exit_code), ("", "", None));
    assert_eq!(r.duration_ms, 2);
    assert_eq!(verdicts(&r), 1);
    let r = setup_response(&SetupError::JavascriptUnavailable, 2);
    assert_eq!(r.error.as_deref(), Some("javascript runtime not available"));
    let r = setup_response(&SetupError::Transpile("no".to_string()), 2);
    assert_eq!(r.error.as_deref(), Some("typescript transpilation failed: no"));
}

#[test]
fn host_errors_are_told() {
    for (step, text) in [
        (HostStep::CreateDir, "failed to create sandbox dir: why"),
        (HostStep::StageSource, "failed to stage source: why"),
        (HostStep::MountDir, "why"),
        (HostStep::Link, "why"),
        (HostStep::Instantiate, "failed to instantiate module: why"),
        (HostStep::FindStart, "module has no _start export: why"),
    ] {
        let r = host_response(&HostError { step, cause: "why".to_string() }, 9);
        assert_eq!(r.error, Some(format!("internal execution error: {text}")));
        assert!(r.trapped);
        assert_eq!(r.exit_code, None);
        assert_eq!(r.duration_ms, 9);
        assert_eq!(verdicts(&r), 1);
    }
}
