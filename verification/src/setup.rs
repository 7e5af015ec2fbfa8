//! What has to hold before the proxy starts, and where a script is looked
//! for.
//!
//! The caller reads the effective user id, the firmware configuration, the
//! list of loaded modules and the controller directory; what they mean is
//! decided here.

use crate::text::{
    chars_of, contains, contains_text, ends_with, has_prefix, has_suffix, matches_at, trim_range,
    trimmed,
};
use vstd::prelude::*;
use vstd::string::StringExecFns;

verus! {

/// Why the proxy cannot start.
#[derive(Clone, Copy, Debug, PartialEq, Eq, Structural)]
pub enum PreflightError {
    /// The effective user is not root.
    NotRoot,
    /// The firmware configuration could not be read.
    ConfigUnreadable,
    /// The firmware configuration does not enable the `dwc2` overlay.
    OverlayMissing,
    /// The list of loaded modules could not be had.
    ModulesUnreadable,
    /// The module `libcomposite` is not loaded.
    ModuleMissing,
    /// The controller directory does not exist.
    NoControllerDirectory,
    /// The controller directory is empty.
    NoController,
}

/// Checks that the effective user id is that of root.
pub fn check_root(euid: u32) -> (r: Result<(), PreflightError>)
    ensures
        r is Ok <==> euid == 0,
        r is Err ==> r == Err::<(), PreflightError>(PreflightError::NotRoot),
{
    if euid == 0 {
        Ok(())
    } else {
        Err(PreflightError::NotRoot)
    }
}

/// Whether `s[a..b]` is a line of `s`: it begins at the start of the text or
/// behind a line feed, ends at the end of the text or before a line feed, and
/// holds no line feed.
pub open spec fn is_line(s: Seq<char>, a: int, b: int) -> bool {
    &&& 0 <= a <= b <= s.len()
    &&& (a == 0 || s[a - 1] == '\n')
    &&& (b == s.len() || s[b] == '\n')
    &&& forall|k: int| a <= k < b ==> s[k] != '\n'
}

/// Whether some line of `content`, without the white space around it, begins
/// with `prefix`.
pub open spec fn some_line_begins_with(content: Seq<char>, prefix: Seq<char>) -> bool {
    exists|a: int, b: int|
        #[trigger] is_line(content, a, b) && has_prefix(trimmed(content.subrange(a, b)), prefix)
}

/// Whether a firmware configuration enables the `dwc2` overlay: a line that
/// is not commented out begins with `dtoverlay=dwc2`.
pub open spec fn enables_overlay(content: Seq<char>) -> bool {
    some_line_begins_with(content, "dtoverlay=dwc2"@)
}

fn line_begins_with(chars: &Vec<char>, start: usize, end: usize, prefix: &Vec<char>) -> (b: bool)
    requires
        start <= end <= chars.len(),
    ensures
        b == has_prefix(trimmed(chars@.subrange(start as int, end as int)), prefix@),
{
    let (a, z) = trim_range(chars, start, end);
    let ghost line = chars@.subrange(a as int, z as int);
    let b = matches_at(chars, a, z, prefix);
    proof {
        if a + prefix.len() <= z {
            assert(chars@.subrange(0, z as int).subrange(a as int, a + prefix.len())
                =~= line.subrange(0, prefix.len() as int));
        }
    }
    b
}

/// Tells whether some line of `content`, trimmed, begins with `prefix`.
pub fn any_line_begins_with(content: &str, prefix: &str) -> (found: bool)
    ensures
        found == some_line_begins_with(content@, prefix@),
{
    let chars = chars_of(content);
    let want = chars_of(prefix);
    let n = chars.len();
    let mut start: usize = 0;
    loop
        invariant
            n == chars.len(),
            chars@ == content@,
            want@ == prefix@,
            start <= n,
            start == 0 || chars[start - 1] == '\n',
            forall|a: int, b: int|
                #[trigger] is_line(chars@, a, b) && a < start ==> !has_prefix(
                    trimmed(chars@.subrange(a, b)),
                    want@,
                ),
        decreases n - start,
    {
        let mut end: usize = start;
        while end < n && chars[end] != '\n'
            invariant
                start <= end <= n,
                n == chars.len(),
                forall|k: int| start <= k < end ==> chars[k] != '\n',
            decreases n - end,
        {
            end = end + 1;
        }
        assert(is_line(chars@, start as int, end as int));
        if line_begins_with(&chars, start, end, &want) {
            return true;
        }
        assert forall|a: int, b: int| #[trigger] is_line(chars@, a, b) && a <= end implies !has_prefix(
            trimmed(chars@.subrange(a, b)),
            want@,
        ) by {
            if a >= start {
                if a > start {
                    assert(chars[a - 1] == '\n');
                }
                assert(a == start);
                if b < end {
                    assert(chars[b] == '\n');
                }
                if b > end {
                    assert(chars[end as int] != '\n');
                }
                assert(b == end);
            }
        }
        if end == n {
            assert forall|a: int, b: int| #[trigger] is_line(chars@, a, b) implies !has_prefix(
                trimmed(chars@.subrange(a, b)),
                want@,
            ) by {}
            return false;
        }
        start = end + 1;
    }
}

/// Checks the firmware configuration, given as its text or `None` where it
/// could not be read.
pub fn check_config_txt(content: Option<&str>) -> (r: Result<(), PreflightError>)
    ensures
        r == (match content {
            None => Err::<(), PreflightError>(PreflightError::ConfigUnreadable),
            Some(text) => if enables_overlay(text@) {
                Ok(())
            } else {
                Err(PreflightError::OverlayMissing)
            },
        }),
{
    match content {
        None => Err(PreflightError::ConfigUnreadable),
        Some(text) => {
            if any_line_begins_with(text, "dtoverlay=dwc2") {
                Ok(())
            } else {
                Err(PreflightError::OverlayMissing)
            }
        },
    }
}

/// Checks the kernel: `modules` is the list of loaded modules as text,
/// `controllers` the number of entries of the controller directory; each is
/// `None` where it could not be had. The module `libcomposite` must be
/// loaded and at least one controller must exist.
pub fn check_kernel_setup(modules: Option<&str>, controllers: Option<usize>) -> (r: Result<
    (),
    PreflightError,
>)
    ensures
        r == (match modules {
            None => Err::<(), PreflightError>(PreflightError::ModulesUnreadable),
            Some(text) => if !contains_text(text@, "libcomposite"@) {
                Err(PreflightError::ModuleMissing)
            } else {
                match controllers {
                    None => Err(PreflightError::NoControllerDirectory),
                    Some(count) => if count == 0 {
                        Err(PreflightError::NoController)
                    } else {
                        Ok(())
                    },
                }
            },
        }),
{
    match modules {
        None => Err(PreflightError::ModulesUnreadable),
        Some(text) => {
            if !contains(text, "libcomposite") {
                Err(PreflightError::ModuleMissing)
            } else {
                match controllers {
                    None => Err(PreflightError::NoControllerDirectory),
                    Some(count) => {
                        if count == 0 {
                            Err(PreflightError::NoController)
                        } else {
                            Ok(())
                        }
                    },
                }
            }
        },
    }
}

/// The terminal's local flags with the echo bits `echo` switched on or off.
pub open spec fn spec_toggle_echo(lflag: u32, echo: u32, enable: bool) -> u32 {
    if enable {
        lflag | echo
    } else {
        lflag & !echo
    }
}

/// Computes the terminal's local flags for echo on or off: the bits of `echo`
/// are set or cleared, every other bit stays.
pub fn toggle_terminal_echo(lflag: u32, echo: u32, enable: bool) -> (flags: u32)
    ensures
        flags == spec_toggle_echo(lflag, echo, enable),
        flags & echo == (if enable {
            echo
        } else {
            0
        }),
        flags & !echo == lflag & !echo,
{
    if enable {
        let flags = lflag | echo;
        assert((lflag | echo) & echo == echo) by (bit_vector);
        assert((lflag | echo) & !echo == lflag & !echo) by (bit_vector);
        flags
    } else {
        let flags = lflag & !echo;
        assert((lflag & !echo) & echo == 0) by (bit_vector);
        assert((lflag & !echo) & !echo == lflag & !echo) by (bit_vector);
        flags
    }
}

// ---------------------------------------------------------------------------
// Finding the script
// ---------------------------------------------------------------------------

/// One place where a script is looked for: a path, and the same path with
/// the script suffix where the path lacks it.
#[derive(Debug, PartialEq, Eq)]
pub struct ScriptCandidate {
    pub path: String,
    pub with_suffix: Option<String>,
}

/// What the file system says of one path.
#[derive(Debug, PartialEq, Eq)]
pub enum Probe {
    /// Nothing exists there.
    Missing,
    /// Something exists there, but its canonical path could not be had.
    Unresolved,
    /// Something exists there, at this canonical path.
    Resolved(String),
}

/// What the file system says of the two paths of a candidate.
#[derive(Debug, PartialEq, Eq)]
pub struct CandidateProbe {
    pub plain: Probe,
    pub with_suffix: Probe,
}

/// The canonical path of a probe, if it has one.
pub open spec fn resolved_path(p: Probe) -> Option<Seq<char>> {
    match p {
        Probe::Resolved(path) => Some(path@),
        _ => None,
    }
}

/// The `i`-th place to look for the script `name`: as given, then under
/// `./examples`, then under the system-wide examples directory.
pub open spec fn candidate_path(name: Seq<char>, i: int) -> Seq<char> {
    if i == 0 {
        name
    } else if i == 1 {
        "./examples/"@ + name
    } else {
        "/usr/local/share/hid-proxy/examples/"@ + name
    }
}

/// Whether the `i`-th candidate is also tried with the suffix appended: its
/// path does not end in `.rhai`.
pub open spec fn tries_suffix(name: Seq<char>, i: int) -> bool {
    !has_suffix(candidate_path(name, i), ".rhai"@)
}

/// What the `i`-th candidate yields: the canonical path of the plain path
/// where that exists; else, where the suffix is tried, that of the path with
/// the suffix.
pub open spec fn candidate_result(name: Seq<char>, i: int, probe: CandidateProbe) -> Option<
    Seq<char>,
> {
    if !(probe.plain is Missing) {
        resolved_path(probe.plain)
    } else if tries_suffix(name, i) {
        resolved_path(probe.with_suffix)
    } else {
        None
    }
}

/// The script that the probes of the three candidates lead to: the first
/// candidate's result that is a path.
pub open spec fn spec_resolve(name: Seq<char>, probes: Seq<CandidateProbe>) -> Option<Seq<char>> {
    if candidate_result(name, 0, probes[0]) is Some {
        candidate_result(name, 0, probes[0])
    } else if candidate_result(name, 1, probes[1]) is Some {
        candidate_result(name, 1, probes[1])
    } else {
        candidate_result(name, 2, probes[2])
    }
}

fn candidate(prefix: &str, script_name: &str, i: usize) -> (c: ScriptCandidate)
    requires
        candidate_path(script_name@, i as int) == prefix@ + script_name@,
    ensures
        c.path@ == candidate_path(script_name@, i as int),
        tries_suffix(script_name@, i as int) ==> c.with_suffix is Some && c.with_suffix->0@
            == candidate_path(script_name@, i as int) + ".rhai"@,
        !tries_suffix(script_name@, i as int) ==> c.with_suffix is None,
{
    let mut path = String::from_str(prefix);
    path.append(script_name);
    let with_suffix = if ends_with(path.as_str(), ".rhai") {
        None
    } else {
        let mut longer = path.clone();
        longer.append(".rhai");
        Some(longer)
    };
    ScriptCandidate { path, with_suffix }
}

/// Lists the places where the script `script_name` is looked for, in order.
pub fn script_candidates(script_name: &str) -> (candidates: [ScriptCandidate; 3])
    ensures
        forall|i: int|
            0 <= i < 3 ==> {
                let c = #[trigger] candidates[i];
                &&& c.path@ == candidate_path(script_name@, i)
                &&& tries_suffix(script_name@, i) ==> c.with_suffix is Some && c.with_suffix->0@
                    == candidate_path(script_name@, i) + ".rhai"@
                &&& !tries_suffix(script_name@, i) ==> c.with_suffix is None
            },
{
    proof {
        reveal_strlit("");
    }
    assert(""@ + script_name@ =~= script_name@);
    let first = candidate("", script_name, 0);
    let second = candidate("./examples/", script_name, 1);
    let third = candidate("/usr/local/share/hid-proxy/examples/", script_name, 2);
    [first, second, third]
}

fn probe_path(p: &Probe) -> (path: Option<String>)
    ensures
        match path {
            Some(s) => resolved_path(*p) == Some(s@),
            None => resolved_path(*p) is None,
        },
{
    match p {
        Probe::Resolved(path) => Some(path.clone()),
        _ => None,
    }
}

fn resolve_candidate(script_name: &str, prefix: &str, i: usize, probe: &CandidateProbe) -> (path:
    Option<String>)
    requires
        candidate_path(script_name@, i as int) == prefix@ + script_name@,
    ensures
        match path {
            Some(s) => candidate_result(script_name@, i as int, *probe) == Some(s@),
            None => candidate_result(script_name@, i as int, *probe) is None,
        },
{
    match probe.plain {
        Probe::Missing => {
            let mut base = String::from_str(prefix);
            base.append(script_name);
            if ends_with(base.as_str(), ".rhai") {
                None
            } else {
                probe_path(&probe.with_suffix)
            }
        },
        _ => probe_path(&probe.plain),
    }
}

/// Resolves the script `script_name` from what the file system says of its
/// three candidates: the canonical path of the first candidate that exists
/// and can be resolved, a candidate without the script suffix being tried
/// with the suffix where its plain path does not exist.
pub fn resolve_script_path(script_name: &str, probes: &[CandidateProbe; 3]) -> (path: Option<
    String,
>)
    ensures
        match path {
            Some(s) => spec_resolve(script_name@, probes@) == Some(s@),
            None => spec_resolve(script_name@, probes@) is None,
        },
{
    proof {
        reveal_strlit("");
    }
    assert(""@ + script_name@ =~= script_name@);
    match resolve_candidate(script_name, "", 0, &probes[0]) {
        Some(path) => {
            return Some(path);
        },
        None => {},
    }
    match resolve_candidate(script_name, "./examples/", 1, &probes[1]) {
        Some(path) => {
            return Some(path);
        },
        None => {},
    }
    resolve_candidate(script_name, "/usr/local/share/hid-proxy/examples/", 2, &probes[2])
}

} // verus!
