# code_sandbox

The decisions of a code-execution service, verified with Verus. A caller submits Python,
TypeScript or JavaScript; the program runs in a WebAssembly guest with a memory cap, a wall-clock
timeout and one read-only directory; the caller gets back stdout, stderr and an exit code.

- `src/` is the library.
  - `api` - requests and responses.
  - `limits` - per-run limits and the deadline of a run.
  - `engine` - what the library takes from wasmtime, with the contract of each part.
  - `transpile` - TypeScript to JavaScript, through swc.
  - `runtime` - the sandbox: which languages it supports, how a program is planned, and the
    launch order that the host carries out.
  - `outcome` - from the way a run ended to the response.
  - `server` - settings, language list, refusals and HTTP statuses.
  - `text` - std string functions.
  - `laws` - what holds of the library as a whole.
- `app/` is the server around it: HTTP, files, the guest's store and the thread that advances the epoch.
- `tests/` runs the library with the real outside crates.

The functions marked `external_body` are the ones whose contracts are believed rather than
proved. Each has a comment that says which outside function it calls and what is claimed of it.
