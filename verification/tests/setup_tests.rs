use hid_proxy::cli::Args;
use hid_proxy::logging::{init, Level, LogSetup};
use hid_proxy::setup::{
    any_line_begins_with, check_config_txt, check_kernel_setup, check_root, resolve_script_path,
    script_candidates, toggle_terminal_echo, CandidateProbe, PreflightError, Probe, ScriptCandidate,
};

fn missing() -> CandidateProbe {
    CandidateProbe { plain: Probe::Missing, with_suffix: Probe::Missing }
}

fn at(path: &str) -> Probe {
    Probe::Resolved(String::from(path))
}

#[test]
fn only_root_passes() {
    assert_eq!(check_root(0), Ok(()));
    assert_eq!(check_root(1000), Err(PreflightError::NotRoot));
    assert_eq!(check_root(u32::MAX), Err(PreflightError::NotRoot));
}

#[test]
fn overlay_must_be_enabled_on_a_line_of_its_own() {
    assert_eq!(check_config_txt(None), Err(PreflightError::ConfigUnreadable));
    assert_eq!(check_config_txt(Some("")), Err(PreflightError::OverlayMissing));
    assert_eq!(check_config_txt(Some("dtoverlay=dwc2")), Ok(()));
    assert_eq!(check_config_txt(Some("[all]\narm_64bit=1\ndtoverlay=dwc2\n")), Ok(()));
    assert_eq!(check_config_txt(Some("a=1\r\n  \tdtoverlay=dwc2,dr_mode=peripheral\r\nb=2")), Ok(()));
    assert_eq!(
        check_config_txt(Some("# dtoverlay=dwc2\n#dtoverlay=dwc2\n")),
        Err(PreflightError::OverlayMissing)
    );
    assert_eq!(
        check_config_txt(Some("dtoverlay=vc4-kms-v3d\nx dtoverlay=dwc2\n")),
        Err(PreflightError::OverlayMissing)
    );
    assert_eq!(check_config_txt(Some("dtoverlay=\ndwc2\n")), Err(PreflightError::OverlayMissing));
    assert_eq!(check_config_txt(Some("dtoverlay=dwc")), Err(PreflightError::OverlayMissing));
}

#[test]
fn line_search_agrees_with_std() {
    let texts = ["", "\n", "k=v", "k=v\n", "\nk=v", "a\n k=v \nb", "a k=v", "a\r\nk=v\r\n", "k=\nv", "\n\n\n k=v"];
    for text in texts {
        for prefix in ["k=v", "k", "a", "v"] {
            let expected = text.lines().any(|l| l.trim().starts_with(prefix));
            assert_eq!(any_line_begins_with(text, prefix), expected);
        }
    }
}

#[test]
fn kernel_needs_libcomposite_and_a_controller() {
    let modules = "Module                  Size  Used by\nusb_f_hid              20480  2\nlibcomposite           65536  10 usb_f_hid\n";
    assert_eq!(check_kernel_setup(Some(modules), Some(1)), Ok(()));
    assert_eq!(check_kernel_setup(Some(modules), Some(3)), Ok(()));
    assert_eq!(check_kernel_setup(None, Some(1)), Err(PreflightError::ModulesUnreadable));
    assert_eq!(
        check_kernel_setup(Some("Module Size Used by\ndwc2 1 0\n"), Some(1)),
        Err(PreflightError::ModuleMissing)
    );
    assert_eq!(check_kernel_setup(Some(""), None), Err(PreflightError::ModuleMissing));
    assert_eq!(check_kernel_setup(Some(modules), None), Err(PreflightError::NoControllerDirectory));
    assert_eq!(check_kernel_setup(Some(modules), Some(0)), Err(PreflightError::NoController));
}

#[test]
fn echo_is_switched_and_nothing_else() {
    let echo = 0o10;
    assert_eq!(toggle_terminal_echo(0o105073, echo, false), 0o105063);
    assert_eq!(toggle_terminal_echo(0o105063, echo, true), 0o105073);
    assert_eq!(toggle_terminal_echo(0o105073, echo, true), 0o105073);
    assert_eq!(toggle_terminal_echo(0o105063, echo, false), 0o105063);
    assert_eq!(toggle_terminal_echo(0, echo, true), echo);
    assert_eq!(toggle_terminal_echo(u32::MAX, echo, false), u32::MAX - echo);
}

#[test]
fn script_is_looked_for_in_three_places() {
    let c = script_candidates("monitor");
    assert_eq!(
        c,
        [
            ScriptCandidate {
                path: String::from("monitor"),
                with_suffix: Some(String::from("monitor.rhai")),
            },
            ScriptCandidate {
                path: String::from("./examples/monitor"),
                with_suffix: Some(String::from("./examples/monitor.rhai")),
            },
            ScriptCandidate {
                path: String::from("/usr/local/share/hid-proxy/examples/monitor"),
                with_suffix: Some(String::from("/usr/local/share/hid-proxy/examples/monitor.rhai")),
            },
        ]
    );
    let d = script_candidates("default.rhai");
    assert_eq!(d[0], ScriptCandidate { path: String::from("default.rhai"), with_suffix: None });
    assert_eq!(
        d[1],
        ScriptCandidate { path: String::from("./examples/default.rhai"), with_suffix: None }
    );
    assert_eq!(
        d[2],
        ScriptCandidate {
            path: String::from("/usr/local/share/hid-proxy/examples/default.rhai"),
            with_suffix: None,
        }
    );
}

#[test]
fn script_resolves_to_the_first_candidate_that_exists() {
    assert_eq!(resolve_script_path("monitor", &[missing(), missing(), missing()]), None);
    let plain_first = [
        CandidateProbe { plain: at("/cwd/monitor"), with_suffix: at("/cwd/monitor.rhai") },
        CandidateProbe { plain: at("/cwd/examples/monitor"), with_suffix: Probe::Missing },
        missing(),
    ];
    assert_eq!(resolve_script_path("monitor", &plain_first), Some(String::from("/cwd/monitor")));
    let suffixed = [
        CandidateProbe { plain: Probe::Missing, with_suffix: at("/cwd/monitor.rhai") },
        CandidateProbe { plain: at("/cwd/examples/monitor"), with_suffix: Probe::Missing },
        missing(),
    ];
    assert_eq!(resolve_script_path("monitor", &suffixed), Some(String::from("/cwd/monitor.rhai")));
    let third = [
        missing(),
        missing(),
        CandidateProbe { plain: Probe::Missing, with_suffix: at("/usr/x/monitor.rhai") },
    ];
    assert_eq!(resolve_script_path("monitor", &third), Some(String::from("/usr/x/monitor.rhai")));
}

#[test]
fn script_with_suffix_is_not_tried_with_a_second_one() {
    let probes = [
        CandidateProbe { plain: Probe::Missing, with_suffix: at("/cwd/a.rhai.rhai") },
        CandidateProbe { plain: Probe::Missing, with_suffix: at("/cwd/examples/a.rhai.rhai") },
        CandidateProbe { plain: at("/usr/x/a.rhai"), with_suffix: Probe::Missing },
    ];
    assert_eq!(resolve_script_path("a.rhai", &probes), Some(String::from("/usr/x/a.rhai")));
}

#[test]
fn unresolvable_candidate_is_passed_over_whole() {
    let probes = [
        CandidateProbe { plain: Probe::Unresolved, with_suffix: at("/cwd/monitor.rhai") },
        CandidateProbe { plain: Probe::Missing, with_suffix: Probe::Unresolved },
        CandidateProbe { plain: at("/usr/x/monitor"), with_suffix: Probe::Missing },
    ];
    assert_eq!(resolve_script_path("monitor", &probes), Some(String::from("/usr/x/monitor")));
    let all_bad = [
        CandidateProbe { plain: Probe::Unresolved, with_suffix: at("/cwd/monitor.rhai") },
        missing(),
        CandidateProbe { plain: Probe::Missing, with_suffix: Probe::Unresolved },
    ];
    assert_eq!(resolve_script_path("monitor", &all_bad), None);
}

#[test]
fn console_level_follows_verbosity() {
    let args = |verbose: u8| Args { script: None, target: None, verbose };
    assert_eq!(init(&args(0), true), LogSetup { journal: Level::Debug, console: Some(Level::Info) });
    assert_eq!(init(&args(1), true), LogSetup { journal: Level::Debug, console: Some(Level::Debug) });
    assert_eq!(init(&args(2), true), LogSetup { journal: Level::Debug, console: Some(Level::Trace) });
    assert_eq!(init(&args(255), true), LogSetup { journal: Level::Debug, console: Some(Level::Trace) });
    assert_eq!(init(&args(2), false), LogSetup { journal: Level::Debug, console: None });
}

#[test]
fn arguments_can_be_cloned() {
    let a = Args { script: Some(String::from("default.rhai")), target: Some(String::from("046d:c52b")), verbose: 1 };
    assert_eq!(a.clone(), a);
}
