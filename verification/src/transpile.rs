//! TypeScript to JavaScript transpilation.
//!
//! Transpilation is a trusted, host-side step: it only parses and lowers types, it does not
//! execute user code. The resulting JavaScript is what runs inside the sandbox.
use std::sync::mpsc::channel;
use std::sync::Arc;

use swc_common::errors::{Handler, HANDLER};
use swc_common::sync::Lrc;
use swc_common::{Globals, SourceMap, GLOBALS};
use swc_fast_ts_strip::{operate, Mode, Options};
use tokio::runtime::{Builder, Runtime};
use vstd::prelude::*;
use vstd::rwlock::{RwLock, RwLockPredicate};
use vstd::utf8::encode_utf8;

use crate::text::{
    from_utf8_lossy, is_white_space, lemma_trimmed, opt_text, result_text, trim, trimmed,
    utf8_lossy,
};

verus! {

/// The number of bytes that a TypeScript source must stay below. The transpiler numbers bytes
/// with 32 bits, starts at one, and keeps the top of that range for itself.
pub const MAX_SOURCE_BYTES: usize = 0xfffe_fffe;

/// The stack that the transpiler gets in any case.
pub const STACK_BASE: usize = 0x40_0000;

/// The stack that it gets for each byte of a word: a letter, a digit, an underscore, or a byte of
/// a character that is not ASCII.
pub const STACK_PER_WORD_BYTE: usize = 0x4000;

/// The stack that it gets for each byte that is neither part of a word nor blank.
pub const STACK_PER_MARK: usize = 0x1_0000;

/// The largest stack that is asked for.
pub const MAX_STACK_BYTES: usize = 0x8000_0000;

/// Whether a byte is an ASCII blank: a tab, a line feed, a carriage return or a space.
pub open spec fn is_blank(b: u8) -> bool {
    b == 9 || b == 10 || b == 13 || b == 32
}

/// Whether a byte is part of a word.
pub open spec fn is_word_byte(b: u8) -> bool {
    ||| 48 <= b <= 57
    ||| 65 <= b <= 90
    ||| b == 95
    ||| 97 <= b <= 122
    ||| b >= 128
}

/// The stack that one byte of a source is reckoned with.
pub open spec fn byte_stack(b: u8) -> nat {
    if is_blank(b) {
        0
    } else if is_word_byte(b) {
        STACK_PER_WORD_BYTE as nat
    } else {
        STACK_PER_MARK as nat
    }
}

/// The stack that the bytes of a source are reckoned with.
pub open spec fn bytes_stack(bytes: Seq<u8>) -> nat
    decreases bytes.len(),
{
    if bytes.len() == 0 {
        STACK_BASE as nat
    } else {
        bytes_stack(bytes.drop_last()) + byte_stack(bytes.last())
    }
}

/// The stack, in bytes, that is set aside for transpiling `source`.
pub open spec fn stack_needed(source: Seq<char>) -> nat {
    bytes_stack(encode_utf8(source))
}

/// Whether a TypeScript source is small enough for the transpiler: its bytes can be numbered, and
/// the stack that it needs can be asked for.
pub open spec fn transpilable(source: Seq<char>) -> bool {
    encode_utf8(source).len() < MAX_SOURCE_BYTES && stack_needed(source) <= MAX_STACK_BYTES
}

/// What the transpiler reports of one source.
pub struct StripReport {
    /// The JavaScript, or the transpiler's own error; `None` if the transpiler panicked.
    pub code: Option<Result<String, String>>,
    /// The diagnostics, rendered as text.
    pub diagnostics: Vec<u8>,
}

impl View for StripReport {
    type V = (Option<Result<Seq<char>, Seq<char>>>, Seq<u8>);

    open spec fn view(&self) -> (Option<Result<Seq<char>, Seq<char>>>, Seq<u8>) {
        (
            match self.code {
                Some(code) => Some(result_text(code)),
                None => None,
            },
            self.diagnostics@,
        )
    }
}

/// What the transpiler reports of `source` under the file name `filename`: the JavaScript or its
/// own error, or neither if it panics; and the rendered diagnostics.
pub uninterp spec fn ts_transform(source: Seq<char>, filename: Option<Seq<char>>) -> (
    Option<Result<Seq<char>, Seq<char>>>,
    Seq<u8>,
);

/// What a report amounts to: the JavaScript where there are no diagnostics, else an error text.
/// That is the diagnostics, or the transpiler's own error where there are none. JavaScript that
/// comes with diagnostics is not used: an error was found in the source after it was parsed.
pub open spec fn settled(report: (Option<Result<Seq<char>, Seq<char>>>, Seq<u8>)) -> Result<
    Seq<char>,
    Seq<char>,
> {
    let text = trimmed(utf8_lossy(report.1));
    if text.len() != 0 {
        Err(text)
    } else {
        match report.0 {
            Some(code) => code,
            None => Err("the transpiler does not support this source"@),
        }
    }
}

/// The JavaScript that `source` is lowered to, or the text that says why it cannot be.
pub open spec fn transpiled(source: Seq<char>) -> Result<Seq<char>, Seq<char>> {
    if transpilable(source) {
        settled(ts_transform(source, Some("main.ts"@)))
    } else {
        Err("the source is too large"@)
    }
}

/// Any byte string may stand in the diagnostics buffer.
struct AnyBytes;

impl RwLockPredicate<Vec<u8>> for AnyBytes {
    closed spec fn inv(self, v: Vec<u8>) -> bool {
        true
    }
}

/// Declares `std::io::Error`, which the signature of a byte sink names. Opaque.
#[verifier::external_type_specification]
#[verifier::external_body]
pub struct ExIoError(std::io::Error);

/// Declares `tokio::runtime::Runtime`, on whose threads blocking work can be run. Opaque.
#[verifier::external_type_specification]
#[verifier::external_body]
pub struct ExRuntime(Runtime);

/// The stack that each thread of a runtime is given, in bytes.
pub uninterp spec fn stack_bytes(runtime: Runtime) -> nat;

/// A byte sink that accumulates emitted diagnostics, so that a caller gets a useful compile error
/// and not a generic message.
struct SharedBuf(Arc<RwLock<Vec<u8>, AnyBytes>>);

/// The bytes with `data` behind them.
fn appended(bytes: Vec<u8>, data: &[u8]) -> (r: Vec<u8>)
    ensures
        r@ == bytes@ + data@,
{
    let mut r = bytes;
    r.extend_from_slice(data);
    r
}

impl std::io::Write for SharedBuf {
    /// Puts the bytes behind those that are there. They are shared through a lock, so that no
    /// contract here can say what they are; see [`appended`].
    fn write(&mut self, data: &[u8]) -> (r: std::io::Result<usize>)
        ensures
            r matches Ok(n) && n == data@.len(),
    {
        let (bytes, handle) = self.0.acquire_write();
        handle.release_write(appended(bytes, data));
        Ok(data.len())
    }

    fn flush(&mut self) -> (r: std::io::Result<()>)
        ensures
            r is Ok,
    {
        Ok(())
    }
}

/// Calls `tokio::runtime::Builder::build` for a current-thread runtime without drivers, which
/// always gives one. `Builder::thread_stack_size` has set the stack of its threads to `stack`.
#[verifier::external_body]
fn new_runtime(stack: usize) -> (r: Runtime)
    ensures
        stack_bytes(r) == stack,
{
    Builder::new_current_thread().thread_stack_size(stack).build().unwrap()
}

/// Calls `tokio::runtime::Runtime::shutdown_background`, which gives up a runtime without waiting.
#[verifier::external_body]
fn retire(runtime: Runtime) {
    runtime.shutdown_background();
}

/// Calls `swc_fast_ts_strip::operate` in its transform mode on `source`, with a diagnostics
/// handler that renders into `buffer`, which must be empty. The report is a function of the source
/// and the file name, named [`ts_transform`]. The handler is also made the ambient one, to which
/// the transform reports the errors that it finds after parsing. The call is made on a thread of
/// `runtime`, so that a panic in it, on a source that it does not support, comes back as no code.
/// Sources whose bytes cannot be numbered are left out.
///
/// The transpiler recurses on the nesting of the source, so the thread must have the stack that
/// [`stack_needed`] reckons with. That is enough because each level of the recursion consumes at
/// least one token, and a token has a byte that is not blank. In an optimised build no kind of
/// nesting takes more than half of what its bytes are given. An opening bracket, the dearest
/// level of one byte, takes less than 32 KiB and is given 64 KiB; `do`, the dearest level made of
/// a word alone, takes less than 14 KiB and is given 32 KiB. The system must have room for a
/// thread with that stack, as it must have memory for the source. Nothing is said of the time that
/// the call takes, which some kinds of nesting double with each level.
#[verifier::external_body]
fn transform(
    source: String,
    filename: Option<String>,
    buffer: Vec<u8>,
    runtime: &Runtime,
) -> (r: StripReport)
    requires
        transpilable(source@),
        buffer@.len() == 0,
        stack_bytes(*runtime) >= stack_needed(source@),
    ensures
        r@ == ts_transform(source@, opt_text(filename)),
{
    let sink = Arc::new(RwLock::new(buffer, Ghost(AnyBytes)));
    let dst = Box::new(SharedBuf(sink.clone()));
    let (sender, receiver) = channel();
    runtime.spawn_blocking(move || {
        let cm = Lrc::<SourceMap>::default();
        let handler = Handler::with_emitter_writer(dst, Some(cm.clone()));
        sender.send(HANDLER.set(&handler, || GLOBALS.set(&Globals::new(), || operate(
            &cm,
            &handler,
            source,
            Options { filename, mode: Mode::Transform, ..Default::default() },
        ))).map(|out| out.code).map_err(|e| e.to_string()))
    });
    StripReport { code: receiver.recv().ok(), diagnostics: sink.acquire_read().borrow().clone() }
}

/// Decides what a transpiler report amounts to.
pub fn settle(report: StripReport) -> (r: Result<String, String>)
    ensures
        result_text(r) == settled(report@),
        match r {
            Ok(js) => {
                &&& report.code matches Some(Ok(code)) && code@ == js@
                &&& forall|i: int|
                    0 <= i < utf8_lossy(report.diagnostics@).len() ==> is_white_space(
                        #[trigger] utf8_lossy(report.diagnostics@)[i],
                    )
            },
            Err(_) => {
                ||| !(report.code matches Some(Ok(_)))
                ||| exists|i: int|
                    0 <= i < utf8_lossy(report.diagnostics@).len() && !is_white_space(
                        #[trigger] utf8_lossy(report.diagnostics@)[i],
                    )
            },
        },
{
    proof {
        lemma_trimmed(utf8_lossy(report.diagnostics@));
    }
    let rendered = from_utf8_lossy(report.diagnostics.as_slice());
    let text = trim(rendered.as_str());
    if text.unicode_len() != 0 {
        return Err(text.to_owned());
    }
    match report.code {
        Some(code) => code,
        None => Err("the transpiler does not support this source".to_owned()),
    }
}

/// A source needs at least as much stack as the bytes that it begins with.
proof fn lemma_stack_grows(bytes: Seq<u8>, i: int)
    requires
        0 <= i <= bytes.len(),
    ensures
        bytes_stack(bytes.take(i)) <= bytes_stack(bytes),
    decreases bytes.len() - i,
{
    if i < bytes.len() {
        assert(bytes.take(i + 1).drop_last() =~= bytes.take(i));
        lemma_stack_grows(bytes, i + 1);
    } else {
        assert(bytes.take(i) =~= bytes);
    }
}

/// Computes the stack that one byte of a source is reckoned with.
fn stack_of_byte(b: u8) -> (r: usize)
    ensures
        r == byte_stack(b),
{
    if b == 9 || b == 10 || b == 13 || b == 32 {
        return 0;
    }
    let digit = 48 <= b && b <= 57;
    let letter = (65 <= b && b <= 90) || (97 <= b && b <= 122);
    if digit || letter || b == 95 || b >= 128 {
        STACK_PER_WORD_BYTE
    } else {
        STACK_PER_MARK
    }
}

/// The stack that transpiling `source` needs, if the source is small enough to be transpiled.
pub fn required_stack(source: &str) -> (r: Option<usize>)
    ensures
        r is Some <==> transpilable(source@),
        r matches Some(n) ==> n == stack_needed(source@),
{
    let bytes = source.as_bytes();
    if bytes.len() >= MAX_SOURCE_BYTES {
        return None;
    }
    let mut stack: usize = STACK_BASE;
    let mut i: usize = 0;
    while i < bytes.len()
        invariant
            bytes@ == encode_utf8(source@),
            i <= bytes@.len(),
            stack == bytes_stack(bytes@.take(i as int)),
            stack <= MAX_STACK_BYTES,
        decreases bytes@.len() - i,
    {
        assert(bytes@.take(i + 1).drop_last() =~= bytes@.take(i as int));
        proof {
            lemma_stack_grows(bytes@, i + 1);
        }
        stack = stack + stack_of_byte(bytes[i]);
        if stack > MAX_STACK_BYTES {
            return None;
        }
        i = i + 1;
    }
    assert(bytes@.take(i as int) =~= bytes@);
    Some(stack)
}

/// Lowers a TypeScript source to JavaScript: types are stripped, and enums, namespaces and
/// parameter properties are turned into plain JavaScript. The error is a text for the caller. The
/// result depends on the source alone.
pub fn typescript_to_js(source: &str) -> (r: Result<String, String>)
    ensures
        result_text(r) == transpiled(source@),
        ({
            let (code, diagnostics) = ts_transform(source@, Some("main.ts"@));
            let text = utf8_lossy(diagnostics);
            match r {
                Ok(js) => {
                    &&& transpilable(source@)
                    &&& code == Some(Ok::<Seq<char>, Seq<char>>(js@))
                    &&& forall|i: int| 0 <= i < text.len() ==> is_white_space(#[trigger] text[i])
                },
                Err(_) => {
                    ||| !transpilable(source@)
                    ||| !(code matches Some(Ok(_)))
                    ||| exists|i: int| 0 <= i < text.len() && !is_white_space(#[trigger] text[i])
                },
            }
        }),
{
    proof {
        lemma_trimmed(utf8_lossy(ts_transform(source@, Some("main.ts"@)).1));
    }
    match required_stack(source) {
        None => Err("the source is too large".to_owned()),
        Some(stack) => {
            let runtime = new_runtime(stack);
            let filename = Some("main.ts".to_owned());
            let report = transform(source.to_owned(), filename, Vec::new(), &runtime);
            retire(runtime);
            settle(report)
        },
    }
}

} // verus!
