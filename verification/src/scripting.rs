//! The script host's decisions: whether a script can be used, what a hook is
//! called with, and what follows from the way a call ended.
//!
//! Scripts are compiled here. They run outside this crate: the caller makes
//! each call and reports how it ended; the reaction is decided here.

use crate::bindings::{payload_values, spec_payload_values, Interface};
use crate::text::{contains, contains_text};
use crate::usb::Direction;
use vstd::prelude::*;
use vstd::string::StringExecFns;

verus! {

/// What can go wrong with a script.
#[derive(Clone, Copy, Debug, PartialEq, Eq, Structural)]
pub enum ScriptError {
    /// The script file was not found.
    NotFound,
    /// The script does not compile.
    Compile,
    /// The script failed while it ran.
    Runtime,
}

/// The entry points of a script, and the run of its top-level statements.
#[derive(Clone, Copy, Debug, PartialEq, Eq, Structural)]
pub enum Hook {
    /// The top-level statements, run once to set up the globals.
    Globals,
    /// `init()`, called once before the gadget is built.
    Init,
    /// `process(interface, direction, bytes)`, called per report.
    Process,
    /// `tick()`, called at a fixed cadence.
    Tick,
}

/// What follows from the way a call ended.
#[derive(Clone, Copy, Debug, PartialEq, Eq, Structural)]
pub enum Reaction {
    /// The call succeeded.
    Proceed,
    /// The script does not define the function: nothing is said.
    Silent,
    /// The call failed: the error is logged and the session goes on.
    Log(ScriptError),
    /// The session cannot go on.
    Fatal(ScriptError),
}

/// Whether an error message reports a call of a function that the script
/// does not define.
pub open spec fn is_missing_function(message: Seq<char>) -> bool {
    contains_text(message, "Function not found"@)
}

/// The name under which a script defines a hook.
pub open spec fn spec_hook_name(hook: Hook) -> Seq<char> {
    match hook {
        Hook::Globals => Seq::empty(),
        Hook::Init => "init"@,
        Hook::Process => "process"@,
        Hook::Tick => "tick"@,
    }
}

/// The name of the script function behind a hook; empty for the globals run,
/// which calls no function.
pub fn hook_name(hook: Hook) -> (name: String)
    ensures
        name@ == spec_hook_name(hook),
{
    match hook {
        Hook::Globals => String::new(),
        Hook::Init => String::from_str("init"),
        Hook::Process => String::from_str("process"),
        Hook::Tick => String::from_str("tick"),
    }
}

/// The reaction to the end of a call: success goes on; a failed globals run
/// is fatal; a hook that the script does not define is passed over in
/// silence; any other failure of a hook is logged.
pub open spec fn spec_after_hook(hook: Hook, error: Option<Seq<char>>) -> Reaction {
    match error {
        None => Reaction::Proceed,
        Some(message) => match hook {
            Hook::Globals => Reaction::Fatal(ScriptError::Runtime),
            _ => if is_missing_function(message) {
                Reaction::Silent
            } else {
                Reaction::Log(ScriptError::Runtime)
            },
        },
    }
}

/// Decides what follows a call of `hook` that ended with `error`, `None`
/// standing for success.
pub fn after_hook(hook: Hook, error: Option<&str>) -> (reaction: Reaction)
    ensures
        reaction == spec_after_hook(
            hook,
            match error {
                Some(m) => Some(m@),
                None => None,
            },
        ),
{
    match error {
        None => Reaction::Proceed,
        Some(message) => {
            match hook {
                Hook::Globals => Reaction::Fatal(ScriptError::Runtime),
                _ => {
                    if contains(message, "Function not found") {
                        Reaction::Silent
                    } else {
                        Reaction::Log(ScriptError::Runtime)
                    }
                },
            }
        },
    }
}

/// A compiled script.
#[verifier::external_type_specification]
#[verifier::external_body]
pub struct ExAst(rhai::AST);

/// The reason why a script does not parse.
#[verifier::external_type_specification]
#[verifier::external_body]
pub struct ExParseError(rhai::ParseError);

/// Whether the text of a script parses.
pub uninterp spec fn script_compiles(source: Seq<char>) -> bool;

/// Calls `rhai::Engine::compile` on a new engine. Trusted: whether the text
/// compiles depends on the text alone.
#[verifier::external_body]
fn compile(source: &str) -> (r: Result<rhai::AST, rhai::ParseError>)
    ensures
        r is Ok <==> script_compiles(source@),
{
    rhai::Engine::new().compile(source)
}

/// What loading yields from the outcome of compilation: no script where none
/// was asked for, the compiled script where there is one, and a compile error
/// where the text did not parse.
pub fn loaded_script(compiled: Option<Result<rhai::AST, rhai::ParseError>>) -> (r: Result<
    Option<rhai::AST>,
    ScriptError,
>)
    ensures
        r == (match compiled {
            None => Ok::<Option<rhai::AST>, ScriptError>(None),
            Some(Ok(ast)) => Ok(Some(ast)),
            Some(Err(_)) => Err(ScriptError::Compile),
        }),
{
    match compiled {
        None => Ok(None),
        Some(Ok(ast)) => Ok(Some(ast)),
        Some(Err(_)) => Err(ScriptError::Compile),
    }
}

/// Loads a script from its text, `None` standing for a run without script.
/// A script that does not compile is a compile error, fatal for the session.
pub fn load_script_engine(source: Option<&str>) -> (r: Result<Option<rhai::AST>, ScriptError>)
    ensures
        match source {
            None => r is Ok && r->Ok_0 is None,
            Some(text) => if script_compiles(text@) {
                r is Ok && r->Ok_0 is Some
            } else {
                r is Err && r->Err_0 == ScriptError::Compile
            },
        },
{
    match source {
        None => loaded_script(None),
        Some(text) => loaded_script(Some(compile(text))),
    }
}

/// The arguments of one call of `process`.
#[derive(Debug, PartialEq, Eq)]
pub struct ProcessCall {
    pub interface: Interface,
    pub direction: String,
    pub values: Vec<Option<i64>>,
}

/// The name of a direction as scripts see it.
pub open spec fn direction_name(direction: Direction) -> Seq<char> {
    match direction {
        Direction::In => "IN"@,
        Direction::Out => "OUT"@,
    }
}

/// Prepares the call of `process` for one report: the handle of the
/// interface it came through, `IN` for a report from the device and `OUT` for
/// one from the host, and the report's bytes as integers.
pub fn process_payload(interface: Interface, direction: Direction, data: &[u8]) -> (call:
    ProcessCall)
    ensures
        call.interface == interface,
        call.direction@ == direction_name(direction),
        call.values@ == spec_payload_values(data@),
{
    let name = match direction {
        Direction::In => String::from_str("IN"),
        Direction::Out => String::from_str("OUT"),
    };
    ProcessCall { interface, direction: name, values: payload_values(data) }
}

/// Decides what follows a call of `tick` that ended with `error`: a script
/// without `tick` is passed over in silence, any other failure is logged.
pub fn tick(error: Option<&str>) -> (reaction: Reaction)
    ensures
        reaction == spec_after_hook(
            Hook::Tick,
            match error {
                Some(m) => Some(m@),
                None => None,
            },
        ),
        !(reaction is Fatal),
{
    after_hook(Hook::Tick, error)
}

} // verus!
