//! The WebAssembly engine: what the library takes from it, and what it relies on of each part.
use std::sync::Arc;

use vstd::prelude::*;
use wasmtime::{Config, Engine, Module, Trap};
use wasmtime_wasi::pipe::MemoryOutputPipe;

use crate::text::joined;

verus! {

/// Declares `wasmtime::Engine`: compilation settings and the epoch counter. Opaque.
#[verifier::external_type_specification]
#[verifier::external_body]
pub struct ExEngine(Engine);

/// Declares `wasmtime::Module`: a compiled WebAssembly module. Opaque.
#[verifier::external_type_specification]
#[verifier::external_body]
pub struct ExModule(Module);

/// Declares `wasmtime_wasi::pipe::MemoryOutputPipe`: a bounded byte buffer that a guest writes to.
/// Its handles share one buffer.
#[verifier::external_type_specification]
#[verifier::external_body]
pub struct ExMemoryOutputPipe(MemoryOutputPipe);

/// An engine, with a record of how it was configured. Cheap to share.
pub struct WasmEngine {
    engine: Arc<Engine>,
    interruptible: Ghost<bool>,
}

impl WasmEngine {
    /// The engine itself.
    pub closed spec fn raw(&self) -> Engine {
        *self.engine
    }

    /// Whether guests on this engine are interrupted once the epoch passes their deadline.
    pub closed spec fn interruptible(&self) -> bool {
        self.interruptible@
    }

    pub fn handle(&self) -> (r: &Engine)
        ensures
            *r == self.raw(),
    {
        &self.engine
    }

    /// Another handle on the same engine.
    pub fn share(&self) -> (r: WasmEngine)
        ensures
            r == *self,
    {
        WasmEngine { engine: self.engine.clone(), interruptible: self.interruptible }
    }
}

/// A compiled interpreter, with a record of what it was compiled from and for. Cheap to share.
pub struct Interpreter {
    module: Arc<Module>,
    image: Ghost<Seq<u8>>,
    engine: Ghost<Engine>,
}

impl Interpreter {
    /// The compiled module.
    pub closed spec fn raw(&self) -> Module {
        *self.module
    }

    /// The WebAssembly image that the module was compiled from.
    pub closed spec fn image(&self) -> Seq<u8> {
        self.image@
    }

    /// The engine that the module was compiled for.
    pub closed spec fn engine(&self) -> Engine {
        self.engine@
    }

    pub fn module(&self) -> (r: &Module)
        ensures
            *r == self.raw(),
    {
        &self.module
    }

    /// Another handle on the same interpreter.
    pub fn share(&self) -> (r: Interpreter)
        ensures
            r == *self,
    {
        Interpreter { module: self.module.clone(), image: self.image, engine: self.engine }
    }
}

/// Calls `wasmtime::Engine::new` on a default `wasmtime::Config` whose `epoch_interruption` is
/// set as asked. The engine carries a record of that setting. Whether an engine can be made
/// depends on the machine, and so does the error text: neither is stated.
#[verifier::external_body]
pub(crate) fn new_engine(epoch_interruption: bool) -> (r: Result<WasmEngine, String>)
    ensures
        r matches Ok(e) ==> e.interruptible() == epoch_interruption,
{
    let mut config = Config::new();
    config.epoch_interruption(epoch_interruption);
    match Engine::new(&config) {
        Ok(engine) => Ok(
            WasmEngine { engine: Arc::new(engine), interruptible: Ghost(epoch_interruption) },
        ),
        Err(e) => Err(format!("{e:#}")),
    }
}

/// Calls `wasmtime::Module::new`, which compiles a WebAssembly image for an engine. The result
/// carries a record of the two. Whether the image compiles depends on the machine that the engine
/// generates code for, and so does the error text: neither is stated.
#[verifier::external_body]
pub(crate) fn compile(engine: &WasmEngine, image: &[u8]) -> (r: Result<Interpreter, String>)
    ensures
        r matches Ok(m) ==> m.image() == image@ && m.engine() == engine.raw(),
{
    match Module::new(&engine.engine, image) {
        Ok(module) => Ok(
            Interpreter {
                module: Arc::new(module),
                image: Ghost(image@),
                engine: Ghost(*engine.engine),
            },
        ),
        Err(e) => Err(format!("{e:#}")),
    }
}

/// The number of bytes that a memory pipe was made to hold at most.
pub uninterp spec fn pipe_capacity(pipe: MemoryOutputPipe) -> nat;

/// Calls `wasmtime_wasi::pipe::MemoryOutputPipe::new`, which makes an empty pipe that holds at
/// most `capacity` bytes.
#[verifier::external_body]
pub(crate) fn output_pipe(capacity: usize) -> (r: MemoryOutputPipe)
    ensures
        pipe_capacity(r) == capacity,
{
    MemoryOutputPipe::new(capacity)
}

/// The bytes that a memory pipe holds when it is emptied.
pub uninterp spec fn pipe_bytes(pipe: MemoryOutputPipe) -> Seq<u8>;

/// Calls `wasmtime_wasi::pipe::MemoryOutputPipe::contents`, which copies out the bytes that the
/// pipe holds, named [`pipe_bytes`]. A guest writes them through another handle on the same pipe,
/// so they are known only at the end: this handle is given up. A write beyond the capacity is
/// refused, so there are never more bytes than that.
#[verifier::external_body]
pub(crate) fn drain(pipe: MemoryOutputPipe) -> (r: Vec<u8>)
    ensures
        r@ == pipe_bytes(pipe),
        r@.len() <= pipe_capacity(pipe),
{
    pipe.contents().to_vec()
}

/// The trap code with which the engine interrupts a guest that is past its deadline.
pub const TRAP_INTERRUPT: u8 = 10;

/// The largest trap code.
pub const TRAP_LAST: u8 = 18;

/// How the engine describes the trap with the given code.
pub open spec fn trap_description(code: u8) -> Seq<char> {
    match code {
        0u8 => "wasm trap: call stack exhausted"@,
        1u8 => "wasm trap: out of bounds memory access"@,
        2u8 => "wasm trap: unaligned atomic"@,
        3u8 => "wasm trap: undefined element: out of bounds table access"@,
        4u8 => "wasm trap: uninitialized element"@,
        5u8 => "wasm trap: indirect call type mismatch"@,
        6u8 => "wasm trap: integer overflow"@,
        7u8 => "wasm trap: integer divide by zero"@,
        8u8 => "wasm trap: invalid conversion to integer"@,
        9u8 => "wasm trap: wasm `unreachable` instruction executed"@,
        10u8 => "wasm trap: interrupt"@,
        11u8 => "wasm trap: degenerate component adapter called"@,
        12u8 => "wasm trap: all fuel consumed by WebAssembly"@,
        13u8 => "wasm trap: atomic wait on non-shared memory"@,
        14u8 => "wasm trap: null reference"@,
        15u8 => "wasm trap: out of bounds array access"@,
        16u8 => "wasm trap: allocation size too large"@,
        17u8 => "wasm trap: cast failure"@,
        _ => "wasm trap: cannot enter component instance"@,
    }
}

/// Calls `wasmtime::Trap::from_u8`, and `Display` of the `wasmtime::Trap` that it gives. There is
/// one for each code up to [`TRAP_LAST`] and none above it.
#[verifier::external_body]
fn trap_text(code: u8) -> (r: Option<String>)
    ensures
        r is Some <==> code <= TRAP_LAST,
        r matches Some(text) ==> text@ == trap_description(code),
{
    Trap::from_u8(code).map(|trap| trap.to_string())
}

/// A trap that the engine knows, with its description.
pub struct TrapReport {
    code: u8,
    text: String,
}

impl TrapReport {
    pub closed spec fn spec_code(&self) -> u8 {
        self.code
    }

    #[verifier::type_invariant]
    spec fn described(&self) -> bool {
        self.code <= TRAP_LAST && self.text@ == trap_description(self.code)
    }

    /// The report of the trap with the given code, where there is one.
    pub fn from_code(code: u8) -> (r: Option<TrapReport>)
        ensures
            r is Some <==> code <= TRAP_LAST,
            r matches Some(t) ==> t.spec_code() == code,
    {
        match trap_text(code) {
            Some(text) => Some(TrapReport { code, text }),
            None => None,
        }
    }

    pub fn is_interrupt(&self) -> (r: bool)
        ensures
            r == (self.spec_code() == TRAP_INTERRUPT),
    {
        self.code == TRAP_INTERRUPT
    }

    /// The note about this trap that is added to what a guest wrote to stderr.
    pub fn note(&self) -> (r: String)
        ensures
            r@ == "\n[trap] "@ + trap_description(self.spec_code()),
    {
        proof {
            use_type_invariant(self);
        }
        joined("\n[trap] ", self.text.as_str())
    }
}

} // verus!
