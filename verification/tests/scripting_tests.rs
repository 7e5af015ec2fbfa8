use hid_proxy::bindings::{DeviceType, Interface};
use hid_proxy::scripting::{
    after_hook, hook_name, load_script_engine, loaded_script, process_payload, tick, Hook,
    ProcessCall, Reaction, ScriptError,
};
use hid_proxy::usb::Direction;

#[test]
fn hooks_have_their_names() {
    assert_eq!(hook_name(Hook::Init), "init");
    assert_eq!(hook_name(Hook::Process), "process");
    assert_eq!(hook_name(Hook::Tick), "tick");
    assert_eq!(hook_name(Hook::Globals), "");
}

#[test]
fn successful_calls_proceed() {
    for hook in [Hook::Globals, Hook::Init, Hook::Process, Hook::Tick] {
        assert_eq!(after_hook(hook, None), Reaction::Proceed);
    }
}

#[test]
fn missing_hooks_are_silent() {
    let message = "Function not found: process (Interface, &str | ImmutableString | String, array)";
    for hook in [Hook::Init, Hook::Process, Hook::Tick] {
        assert_eq!(after_hook(hook, Some(message)), Reaction::Silent);
        assert_eq!(after_hook(hook, Some("x Function not found")), Reaction::Silent);
    }
}

#[test]
fn other_failures_of_hooks_are_logged() {
    for hook in [Hook::Init, Hook::Process, Hook::Tick] {
        assert_eq!(
            after_hook(hook, Some("Variable not found: x (line 3, position 5)")),
            Reaction::Log(ScriptError::Runtime)
        );
        assert_eq!(after_hook(hook, Some("function not found")), Reaction::Log(ScriptError::Runtime));
        assert_eq!(after_hook(hook, Some("")), Reaction::Log(ScriptError::Runtime));
    }
}

#[test]
fn failed_globals_run_is_fatal() {
    assert_eq!(after_hook(Hook::Globals, Some("boom")), Reaction::Fatal(ScriptError::Runtime));
    assert_eq!(
        after_hook(Hook::Globals, Some("Function not found: f ()")),
        Reaction::Fatal(ScriptError::Runtime)
    );
}

#[test]
fn tick_is_never_fatal() {
    assert_eq!(tick(None), Reaction::Proceed);
    assert_eq!(tick(Some("Function not found: tick ()")), Reaction::Silent);
    assert_eq!(tick(Some("Division by zero")), Reaction::Log(ScriptError::Runtime));
}

#[test]
fn script_that_compiles_is_loaded() {
    let source = "let seen = 0;\nfn process(iface, dir, data) { iface.send_to(dir, data); }\nfn tick() { }\n";
    assert!(matches!(load_script_engine(Some(source)), Ok(Some(_))));
    assert!(matches!(load_script_engine(Some("")), Ok(Some(_))));
}

#[test]
fn script_that_does_not_compile_is_a_compile_error() {
    assert!(matches!(load_script_engine(Some("let x = ;")), Err(ScriptError::Compile)));
    assert!(matches!(load_script_engine(Some("fn process(a, { }")), Err(ScriptError::Compile)));
    assert!(matches!(load_script_engine(Some("let s = \"open")), Err(ScriptError::Compile)));
}

#[test]
fn no_script_is_no_error() {
    assert!(matches!(load_script_engine(None), Ok(None)));
}

#[test]
fn loading_follows_the_outcome_of_compilation() {
    let engine = rhai::Engine::new();
    assert!(matches!(loaded_script(None), Ok(None)));
    assert!(matches!(loaded_script(Some(engine.compile("40 + 2"))), Ok(Some(_))));
    assert!(matches!(loaded_script(Some(engine.compile("40 +"))), Err(ScriptError::Compile)));
}

#[test]
fn loaded_script_runs() {
    let ast = load_script_engine(Some("fn answer() { 40 + 2 }")).unwrap().unwrap();
    let engine = rhai::Engine::new();
    let mut scope = rhai::Scope::new();
    let answer: i64 = engine.call_fn(&mut scope, &ast, "answer", ()).unwrap();
    assert_eq!(answer, 42);
    let missing: Result<(), _> = engine.call_fn(&mut scope, &ast, "tick", ());
    let message = missing.unwrap_err().to_string();
    assert_eq!(after_hook(Hook::Tick, Some(&message)), Reaction::Silent);
    let failing = load_script_engine(Some("fn tick() { let x = 1 / 0; }")).unwrap().unwrap();
    let failed: Result<(), _> = engine.call_fn(&mut scope, &failing, "tick", ());
    let message = failed.unwrap_err().to_string();
    assert_eq!(after_hook(Hook::Tick, Some(&message)), Reaction::Log(ScriptError::Runtime));
}

#[test]
fn process_is_called_with_handle_direction_and_integers() {
    let iface = Interface::new_virtual(2, DeviceType::Other);
    assert_eq!(
        process_payload(iface, Direction::In, &[0, 0, 4, 255]),
        ProcessCall {
            interface: iface,
            direction: String::from("IN"),
            values: vec![Some(0), Some(0), Some(4), Some(255)],
        }
    );
    assert_eq!(
        process_payload(iface, Direction::Out, &[]),
        ProcessCall { interface: iface, direction: String::from("OUT"), values: Vec::new() }
    );
}
