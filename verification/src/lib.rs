//! A code-execution service's decisions: which program runs, with what limits, and what the
//! caller is told about it.
//!
//! A caller submits a snippet of Python, TypeScript or JavaScript. [`runtime::Sandbox`] picks the
//! interpreter (a WebAssembly module), lowers TypeScript to JavaScript and produces a launch
//! order; the host runs the guest as the order says; the library turns what came back into a
//! response. [`server`] holds the rules of the HTTP front end. [`laws`] states what holds of the
//! library as a whole.
pub mod api;
pub mod engine;
pub mod laws;
pub mod limits;
pub mod outcome;
pub mod runtime;
pub mod server;
pub mod text;
pub mod transpile;
