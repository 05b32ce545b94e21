//! The rules of the HTTP front end: its settings, and what each request is answered.
use vstd::prelude::*;

use crate::api::{ErrorResponse, Language, ResponseView, RunRequest, RunResponse};
use crate::runtime::{Sandbox, SandboxView};
use crate::text::{ascii_lower, joined, opt_str, opt_text, same_text, to_ascii_lowercase};

verus! {

/// Where the bundled Python interpreter lies.
pub const BUNDLED_PYTHON: &'static str = "runtimes/python.wasm";

/// Where the bundled JavaScript interpreter lies.
pub const BUNDLED_QJS: &'static str = "runtimes/qjs.wasm";

/// Where the bundled pure-Python packages lie.
pub const BUNDLED_PACKAGES: &'static str = "runtimes/py-site-packages";

/// The environment variables that the server reads, as far as they are set.
pub struct Environment {
    pub python_wasm: Option<String>,
    pub qjs_wasm: Option<String>,
    pub py_packages: Option<String>,
    pub console: Option<String>,
    pub bind: Option<String>,
}

/// Which of the bundled files are present.
pub struct Bundled {
    pub python_wasm: bool,
    pub qjs_wasm: bool,
    pub py_packages: bool,
}

/// What the server was told to do.
pub struct Settings {
    pub python_wasm: Option<String>,
    pub qjs_wasm: Option<String>,
    /// A directory of pure-Python packages.
    pub py_packages: Option<String>,
    /// Whether the browser playground is served.
    pub console: bool,
    /// The address to listen on.
    pub bind: String,
}

/// What [`Settings`] say.
pub struct SettingsView {
    pub python_wasm: Option<Seq<char>>,
    pub qjs_wasm: Option<Seq<char>>,
    pub py_packages: Option<Seq<char>>,
    pub console: bool,
    pub bind: Seq<char>,
}

impl View for Settings {
    type V = SettingsView;

    open spec fn view(&self) -> SettingsView {
        SettingsView {
            python_wasm: opt_text(self.python_wasm),
            qjs_wasm: opt_text(self.qjs_wasm),
            py_packages: opt_text(self.py_packages),
            console: self.console,
            bind: self.bind@,
        }
    }
}

/// The path that was set, or the bundled one where that is present.
pub open spec fn chosen_path(set: Option<Seq<char>>, bundled: Seq<char>, present: bool) -> Option<
    Seq<char>,
> {
    match set {
        Some(path) => Some(path),
        None => if present {
            Some(bundled)
        } else {
            None
        },
    }
}

/// Whether a flag is on: its value, in lower case, is one of `1`, `true` and `yes`.
pub open spec fn flag_on(value: Option<Seq<char>>) -> bool {
    match value {
        Some(text) => {
            let lower = text.map_values(|c: char| ascii_lower(c));
            ||| lower == "1"@
            ||| lower == "true"@
            ||| lower == "yes"@
        },
        None => false,
    }
}

impl Environment {
    pub open spec fn python(&self, bundled: Bundled) -> Option<Seq<char>> {
        chosen_path(opt_text(self.python_wasm), BUNDLED_PYTHON@, bundled.python_wasm)
    }

    pub open spec fn qjs(&self, bundled: Bundled) -> Option<Seq<char>> {
        chosen_path(opt_text(self.qjs_wasm), BUNDLED_QJS@, bundled.qjs_wasm)
    }

    /// The settings that this environment asks for, with `None` where no interpreter is found.
    pub open spec fn settings(&self, bundled: Bundled) -> Option<SettingsView> {
        if self.python(bundled) is None && self.qjs(bundled) is None {
            None
        } else {
            Some(
                SettingsView {
                    python_wasm: self.python(bundled),
                    qjs_wasm: self.qjs(bundled),
                    py_packages: chosen_path(
                        opt_text(self.py_packages),
                        BUNDLED_PACKAGES@,
                        bundled.py_packages,
                    ),
                    console: flag_on(opt_text(self.console)),
                    bind: match self.bind {
                        Some(addr) => addr@,
                        None => "127.0.0.1:8080"@,
                    },
                },
            )
        }
    }
}

/// `path`, where there is something at it.
pub fn existing(path: &str, present: bool) -> (r: Option<String>)
    ensures
        opt_text(r) == chosen_path(None, path@, present),
        r is Some <==> present,
        r matches Some(p) ==> p@ == path@,
{
    if present {
        Some(path.to_owned())
    } else {
        None
    }
}

/// The path that was set, or the bundled one where that is present.
fn set_or_bundled(set: Option<String>, bundled: &str, present: bool) -> (r: Option<String>)
    ensures
        opt_text(r) == chosen_path(opt_text(set), bundled@, present),
{
    match set {
        Some(path) => Some(path),
        None => existing(bundled, present),
    }
}

/// Whether a flag is on (`1`/`true`/`yes`, case-insensitive), given the value of its
/// variable, where that is set.
pub fn env_flag(value: Option<&str>) -> (r: bool)
    ensures
        r == flag_on(opt_str(value)),
{
    match value {
        Some(text) => {
            let lower = to_ascii_lowercase(text);
            let flag = lower.as_str();
            same_text(flag, "1") || same_text(flag, "true") || same_text(flag, "yes")
        },
        None => false,
    }
}

/// The error of a server without any interpreter.
pub open spec fn no_runtimes() -> Seq<char> {
    "no runtimes found: set PYTHON_WASM and/or QJS_WASM, or place them in runtimes/"@
}

/// Works out the settings. It is an error if no interpreter is found.
pub fn resolve(env: Environment, bundled: Bundled) -> (r: Result<Settings, String>)
    ensures
        match r {
            Ok(s) => Some(s@) == env.settings(bundled),
            Err(e) => env.settings(bundled) is None && e@ == no_runtimes(),
        },
        r is Ok <==> env.python_wasm is Some || env.qjs_wasm is Some || bundled.python_wasm
            || bundled.qjs_wasm,
        r matches Err(e) ==> e@
            == "no runtimes found: set PYTHON_WASM and/or QJS_WASM, or place them in runtimes/"@,
        r matches Ok(s) ==> {
            &&& s.python_wasm is Some <==> env.python_wasm is Some || bundled.python_wasm
            &&& s.qjs_wasm is Some <==> env.qjs_wasm is Some || bundled.qjs_wasm
            &&& s.py_packages is Some <==> env.py_packages is Some || bundled.py_packages
            &&& env.bind matches Some(addr) ==> s.bind@ == addr@
        },
{
    let console = match &env.console {
        Some(value) => env_flag(Some(value.as_str())),
        None => env_flag(None),
    };
    let python_wasm = set_or_bundled(env.python_wasm, BUNDLED_PYTHON, bundled.python_wasm);
    let qjs_wasm = set_or_bundled(env.qjs_wasm, BUNDLED_QJS, bundled.qjs_wasm);
    if python_wasm.is_none() && qjs_wasm.is_none() {
        return Err(
            "no runtimes found: set PYTHON_WASM and/or QJS_WASM, or place them in runtimes/".to_owned(),
        );
    }
    let py_packages = set_or_bundled(env.py_packages, BUNDLED_PACKAGES, bundled.py_packages);
    let bind = match env.bind {
        Some(addr) => addr,
        None => "127.0.0.1:8080".to_owned(),
    };
    Ok(Settings { python_wasm, qjs_wasm, py_packages, console, bind })
}

/// The name of `lang` in a list of its own if it is supported, else the empty list.
pub open spec fn name_if_supported(sandbox: SandboxView, lang: Language) -> Seq<Seq<char>> {
    if sandbox.supports(lang) {
        seq![lang.spec_name()]
    } else {
        seq![]
    }
}

/// The names of the languages that are available.
pub open spec fn available(sandbox: SandboxView) -> Seq<Seq<char>> {
    name_if_supported(sandbox, Language::Python) + name_if_supported(sandbox, Language::Typescript)
        + name_if_supported(sandbox, Language::Javascript)
}

/// Lists the languages that are available.
pub fn languages(sandbox: &Sandbox) -> (r: Vec<&'static str>)
    ensures
        r@.map_values(|s: &'static str| s@) == available(sandbox@),
{
    let mut names: Vec<&'static str> = Vec::new();
    if sandbox.supports(Language::Python) {
        names.push(Language::Python.name());
    }
    if sandbox.supports(Language::Typescript) {
        names.push(Language::Typescript.name());
    }
    if sandbox.supports(Language::Javascript) {
        names.push(Language::Javascript.name());
    }
    assert(names@.map_values(|s: &'static str| s@) =~= available(sandbox@));
    names
}

/// The body of an answer.
pub enum Body {
    Run(RunResponse),
    Error(ErrorResponse),
}

/// An answer to a caller: an HTTP status and a body.
pub struct Reply {
    pub status: u16,
    pub body: Body,
}

/// What a [`Body`] says.
pub enum BodyView {
    Run(ResponseView),
    Error(Seq<char>),
}

/// What a [`Reply`] says.
pub struct ReplyView {
    pub status: u16,
    pub body: BodyView,
}

impl View for Reply {
    type V = ReplyView;

    open spec fn view(&self) -> ReplyView {
        ReplyView {
            status: self.status,
            body: match self.body {
                Body::Run(resp) => BodyView::Run(resp@),
                Body::Error(e) => BodyView::Error(e.error@),
            },
        }
    }
}

/// The answer to a request in a language that is not available, with `None` for any other.
pub open spec fn refusal(sandbox: SandboxView, lang: Language) -> Option<ReplyView> {
    if sandbox.supports(lang) {
        None
    } else {
        Some(
            ReplyView {
                status: 400,
                body: BodyView::Error(
                    "language "@ + lang.spec_title() + " is not available on this server"@,
                ),
            },
        )
    }
}

/// Decides whether a request is run. The result is the answer to one that is not.
pub fn run(sandbox: &Sandbox, req: &RunRequest) -> (r: Option<Reply>)
    ensures
        match r {
            Some(reply) => Some(reply@) == refusal(sandbox@, req.language),
            None => refusal(sandbox@, req.language) is None,
        },
        r is None <==> match req.language {
            Language::Python => sandbox@.python is Some,
            _ => sandbox@.qjs is Some,
        },
        r matches Some(reply) ==> reply.status == 400 && (reply.body matches Body::Error(e)
            && e.error@ == "language "@ + req.language.spec_title()
            + " is not available on this server"@),
{
    if sandbox.supports(req.language) {
        return None;
    }
    let mut error = joined("language ", req.language.title());
    error.append(" is not available on this server");
    Some(Reply { status: 400, body: Body::Error(ErrorResponse { error }) })
}

/// The answer to a request that was run, given the response, or why the task that makes it
/// failed.
pub open spec fn completion(result: Result<ResponseView, Seq<char>>) -> ReplyView {
    match result {
        Ok(resp) => ReplyView { status: 200, body: BodyView::Run(resp) },
        Err(cause) => ReplyView {
            status: 500,
            body: BodyView::Error("execution task failed: "@ + cause),
        },
    }
}

/// Answers a request that was run.
pub fn reply(result: Result<RunResponse, String>) -> (r: Reply)
    ensures
        r@ == completion(
            match result {
                Ok(resp) => Ok(resp@),
                Err(cause) => Err(cause@),
            },
        ),
        match result {
            Ok(resp) => r.status == 200 && r.body == Body::Run(resp),
            Err(cause) => r.status == 500 && (r.body matches Body::Error(e) && e.error@
                == "execution task failed: "@ + cause@),
        },
{
    match result {
        Ok(resp) => Reply { status: 200, body: Body::Run(resp) },
        Err(cause) => Reply {
            status: 500,
            body: Body::Error(
                ErrorResponse { error: joined("execution task failed: ", cause.as_str()) },
            ),
        },
    }
}

} // verus!
