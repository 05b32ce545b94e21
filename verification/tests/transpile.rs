use code_sandbox::transpile::{
    required_stack, settle, typescript_to_js, StripReport, MAX_STACK_BYTES, STACK_BASE,
    STACK_PER_MARK, STACK_PER_WORD_BYTE,
};

#[test]
fn types_are_stripped() {
    assert_eq!(typescript_to_js("const x: number = 1;").unwrap(), "const x = 1;\n");
    assert_eq!(typescript_to_js("let id = <T,>(y: T) => y;").unwrap(), "let id = (y)=>y;\n");
}

#[test]
fn enums_are_lowered() {
    let js = typescript_to_js("enum E{A,B};const x:number=E.B;console.log(x)").unwrap();
    assert!(js.contains("E[E[\"B\"] = 1] = \"B\";"));
    assert!(js.ends_with("const x = 1;\nconsole.log(x);\n"));
}

#[test]
fn empty_source_is_fine() {
    assert_eq!(typescript_to_js("").unwrap(), "");
}

#[test]
fn syntax_error_comes_with_its_place() {
    let err = typescript_to_js("const x: = 1;").unwrap_err();
    assert!(err.starts_with("error[InvalidSyntax]: Unexpected token `=`."));
    assert!(err.contains(" --> main.ts:1:10\n"));
    assert!(err.ends_with("1 | const x: = 1;\n  |          ^"));
}

#[test]
fn error_found_after_parsing_is_an_error() {
    let err = typescript_to_js("namespace N { export * from 'y'; }").unwrap_err();
    assert!(err.starts_with(
        "error: ESM-style module declarations are not permitted in a namespace.\n --> main.ts:1:15\n"
    ));
}

#[test]
fn source_on_which_the_transpiler_panics_is_an_error() {
    for source in [
        "module \"m\" { export const a = 1; }",
        "class C { constructor(private {a} = {a: 1}) {} }",
    ] {
        assert_eq!(
            typescript_to_js(source),
            Err("the transpiler does not support this source".to_string())
        );
    }
}

#[test]
fn stack_is_reckoned_by_the_byte() {
    assert_eq!(required_stack(""), Some(STACK_BASE));
    assert_eq!(required_stack(" \t\r\n"), Some(STACK_BASE));
    assert_eq!(required_stack("do it_9 "), Some(STACK_BASE + 6 * STACK_PER_WORD_BYTE));
    assert_eq!(required_stack("(é)"), Some(STACK_BASE + 2 * STACK_PER_WORD_BYTE + 2 * STACK_PER_MARK));
    for word in ["0", "9", "A", "Z", "_", "a", "z"] {
        assert_eq!(required_stack(word), Some(STACK_BASE + STACK_PER_WORD_BYTE));
    }
    for mark in ["/", ":", "@", "[", "^", "`", "{", "\u{7f}", "\u{b}", "!", "$"] {
        assert_eq!(required_stack(mark), Some(STACK_BASE + STACK_PER_MARK));
    }
}

#[test]
fn source_that_needs_too_much_stack_is_refused() {
    let most = (MAX_STACK_BYTES - STACK_BASE) / STACK_PER_MARK;
    assert_eq!(required_stack(&"(".repeat(most)), Some(MAX_STACK_BYTES));
    assert_eq!(required_stack(&"(".repeat(most + 1)), None);
    assert_eq!(required_stack(&format!("{} \n", "(".repeat(most))), Some(MAX_STACK_BYTES));
    for source in ["(".repeat(most + 1), "a".repeat(200_000), "let x = 1;\n".repeat(20_000)] {
        assert_eq!(typescript_to_js(&source), Err("the source is too large".to_string()));
    }
}

fn nested(open: &str, inner: &str, close: &str) -> Result<String, String> {
    typescript_to_js(&format!("{}{inner}{}", open.repeat(1_000), close.repeat(1_000)))
}

#[test]
fn deeply_nested_sources_are_transpiled() {
    assert_eq!(nested("!", "1", "").unwrap(), format!("{}1;\n", "!".repeat(1_000)));
    assert_eq!(nested("(", "1", ")").unwrap(), "1;\n");
    assert_eq!(nested("a=>", "1", "").unwrap(), format!("{}1;\n", "(a)=>".repeat(1_000)));
    let brackets: String = nested("[", "", "]").unwrap().split_whitespace().collect();
    assert_eq!(brackets, format!("{}{};", "[".repeat(1_000), "]".repeat(1_000)));
    for (open, close) in [
        ("{", "}"),
        ("do ", " while(1);"),
        ("while(1)", ";"),
        ("({m(){", "}})"),
        ("(class{m(){", "}})"),
        ("function f(){", "}"),
        ("(async()=>{", "})()"),
    ] {
        assert!(nested(open, ";", close).is_ok());
    }
    let ts = format!("let x: {}A{}", "[".repeat(1_000), "]".repeat(1_000));
    assert_eq!(typescript_to_js(&ts).unwrap(), "let x;\n");
}

#[test]
fn deeply_nested_sources_that_do_not_end_are_errors() {
    for open in ["(", "[", "{", "do ", "!", "`${", "class A{m(){", "function f(){", "(class{a="] {
        let err = typescript_to_js(&open.repeat(3_000)).unwrap_err();
        assert!(err.starts_with("error[InvalidSyntax]"));
    }
}

#[test]
fn long_flat_sources_are_transpiled() {
    let line = "const total: number = items.reduce((sum, item) => sum + item.price, 0);\n";
    let js = typescript_to_js(&line.replace("const", "var").repeat(800)).unwrap();
    let lowered = "var total = items.reduce((sum, item)=>sum + item.price, 0);\n";
    assert_eq!(js, lowered.repeat(800));
}

#[test]
fn transpiling_twice_gives_the_same() {
    let source = "class P { constructor(private x: number) {} }";
    let first = typescript_to_js(source);
    assert!(first.is_ok());
    assert!(typescript_to_js("let x: = 1").is_err());
    assert!(typescript_to_js("module \"m\" { export const a = 1; }").is_err());
    assert_eq!(typescript_to_js(source), first);
    let first = typescript_to_js("const a: ;");
    assert!(typescript_to_js("let x: = 1").is_err());
    assert_eq!(typescript_to_js("const a: ;"), first);
}

#[test]
fn transpiling_works_inside_an_async_task() {
    let runtime = tokio::runtime::Builder::new_current_thread().build().unwrap();
    let js = runtime.block_on(async { typescript_to_js("let x: any = 1") });
    assert_eq!(js.unwrap(), "let x = 1;\n");
}

fn report(code: Result<&str, &str>, diagnostics: &[u8]) -> StripReport {
    StripReport {
        code: Some(code.map(|s| s.to_string()).map_err(|s| s.to_string())),
        diagnostics: diagnostics.to_vec(),
    }
}

#[test]
fn report_without_diagnostics_is_taken_as_it_is() {
    assert_eq!(settle(report(Ok("a"), b"")), Ok("a".to_string()));
    assert_eq!(settle(report(Err("[Unknown] m"), b"")), Err("[Unknown] m".to_string()));
    assert_eq!(settle(report(Err("m"), b" \n\t ")), Err("m".to_string()));
}

#[test]
fn panic_is_an_error() {
    let panicked = |text: &[u8]| StripReport { code: None, diagnostics: text.to_vec() };
    assert_eq!(
        settle(panicked(b"\n")),
        Err("the transpiler does not support this source".to_string())
    );
    assert_eq!(settle(panicked(b"why\n")), Err("why".to_string()));
}

#[test]
fn diagnostics_win_and_are_trimmed() {
    assert_eq!(settle(report(Err("m"), b"\n bad thing \n\n")), Err("bad thing".to_string()));
    assert_eq!(settle(report(Ok("a"), b"bad")), Err("bad".to_string()));
    assert_eq!(
        settle(report(Err("m"), "\u{a0}\u{3000}x\u{2028}y\u{200a}".as_bytes())),
        Err("x\u{2028}y".to_string())
    );
    assert_eq!(settle(report(Err("m"), "\u{200b}".as_bytes())), Err("\u{200b}".to_string()));
    assert_eq!(settle(report(Err("m"), b"a\xffb")), Err("a\u{fffd}b".to_string()));
}

#[test]
fn every_white_space_character_is_trimmed() {
    for c in '\0'..='\u{ffff}' {
        let white = matches!(
            c,
            '\u{9}'..='\u{d}'
                | '\u{20}'
                | '\u{85}'
                | '\u{a0}'
                | '\u{1680}'
                | '\u{2000}'..='\u{200a}'
                | '\u{2028}'
                | '\u{2029}'
                | '\u{202f}'
                | '\u{205f}'
                | '\u{3000}'
        );
        let got = settle(report(Err("m"), format!("{c}x{c}").as_bytes())).unwrap_err();
        let want = if white { "x".to_string() } else { format!("{c}x{c}") };
        assert_eq!(got, want);
    }
}
