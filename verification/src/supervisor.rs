//! The supervisor: which device to mirror, and how a run advances from
//! discovery over gadget build and proxying to teardown.
//!
//! The supervisor is a state machine. The caller performs the action of the
//! current state, reports what happened as an event, and is told the next
//! state.

use crate::device::{compound_views, id_text, lower_text, CompoundHIDevice, CompoundHIDeviceView};
use crate::proxy::SessionEnd;
use crate::scripting::ScriptError;
use crate::setup::{spec_resolve, CandidateProbe};
use crate::text::{
    chars_of, decimal_text, digit_char, is_space, significant_digits, trim_end, trim_start,
    trim_range, trimmed,
};
use vstd::prelude::*;

verus! {

/// Milliseconds to let the bus settle after a hotplug event.
pub const HOTPLUG_SETTLE_MILLIS: u64 = 500;

/// Milliseconds to wait after a gadget could not be built.
pub const COOLDOWN_MILLIS: u64 = 5000;

/// Milliseconds to wait after a teardown before the next scan.
pub const RESCAN_MILLIS: u64 = 1000;

/// Milliseconds between two calls of a script's `tick`.
pub const TICK_MILLIS: u64 = 10;

/// Exit code of a normal end.
pub const EXIT_OK: u8 = 0;

/// Exit code after a failed preflight check or a fatal error.
pub const EXIT_FATAL: u8 = 1;

// ---------------------------------------------------------------------------
// Selecting a device
// ---------------------------------------------------------------------------

/// What a scan's candidates and the user's target lead to.
#[derive(Clone, Copy, Debug, PartialEq, Eq, Structural)]
pub enum Selection {
    /// There is no candidate: wait for a device to be plugged in.
    AwaitHotplug,
    /// The candidate at this index is the device to mirror.
    Chosen(usize),
    /// A target was named and no candidate has its id.
    TargetMissing,
    /// Several candidates and no target: the user has to pick.
    AskUser,
}

/// Whether `target` names the device `d`.
pub open spec fn names_device(d: CompoundHIDeviceView, target: Seq<char>) -> bool {
    lower_text(target) == id_text(d.vendor_id, d.product_id)
}

/// Whether `i` is the first candidate that `target` names.
pub open spec fn is_first_named(
    candidates: Seq<CompoundHIDeviceView>,
    i: int,
    target: Seq<char>,
) -> bool {
    &&& 0 <= i < candidates.len()
    &&& names_device(candidates[i], target)
    &&& forall|k: int| 0 <= k < i ==> !names_device(#[trigger] candidates[k], target)
}

/// The selection among `candidates`: none without candidates; with a target
/// the first candidate of that id or none; without a target the only
/// candidate, or the user's choice among several.
pub open spec fn spec_select_device(
    candidates: Seq<CompoundHIDeviceView>,
    target: Option<Seq<char>>,
    selection: Selection,
) -> bool {
    if candidates.len() == 0 {
        selection == Selection::AwaitHotplug
    } else {
        match target {
            Some(t) => match selection {
                Selection::Chosen(i) => is_first_named(candidates, i as int, t),
                Selection::TargetMissing => forall|k: int|
                    0 <= k < candidates.len() ==> !names_device(#[trigger] candidates[k], t),
                _ => false,
            },
            None => if candidates.len() == 1 {
                selection == Selection::Chosen(0)
            } else {
                selection == Selection::AskUser
            },
        }
    }
}

/// Picks the device to mirror from the candidates of a scan.
#[verifier::loop_isolation(false)]
pub fn select_device(candidates: &Vec<CompoundHIDevice>, target: Option<&str>) -> (selection:
    Selection)
    ensures
        spec_select_device(
            compound_views(candidates@),
            match target {
                Some(t) => Some(t@),
                None => None,
            },
            selection,
        ),
{
    if candidates.len() == 0 {
        return Selection::AwaitHotplug;
    }
    match target {
        Some(t) => {
            let mut i: usize = 0;
            while i < candidates.len()
                invariant
                    i <= candidates.len(),
                    forall|k: int|
                        0 <= k < i ==> !names_device(
                            #[trigger] compound_views(candidates@)[k],
                            t@,
                        ),
                decreases candidates.len() - i,
            {
                assert(compound_views(candidates@)[i as int] == candidates[i as int]@);
                if candidates[i].matches(t) {
                    assert(is_first_named(compound_views(candidates@), i as int, t@));
                    return Selection::Chosen(i);
                }
                i = i + 1;
            }
            Selection::TargetMissing
        },
        None => {
            if candidates.len() == 1 {
                Selection::Chosen(0)
            } else {
                Selection::AskUser
            }
        },
    }
}

/// Whether `c` is one of the ten decimal digits.
pub open spec fn is_decimal_digit(c: char) -> bool {
    '0' <= c <= '9'
}

/// The number that the digits of `s` write in decimal.
pub open spec fn decimal_value(s: Seq<char>) -> nat
    decreases s.len(),
{
    if s.len() == 0 {
        0
    } else {
        decimal_value(s.drop_last()) * 10 + ((s.last() as u32) - ('0' as u32)) as nat
    }
}

/// The digits of an index as a user types it: what follows an optional plus
/// sign.
pub open spec fn unsigned_part(s: Seq<char>) -> Seq<char> {
    if s.len() > 0 && s[0] == '+' {
        s.drop_first()
    } else {
        s
    }
}

/// Whether `s` writes a number: at least one character, all of them decimal
/// digits.
pub open spec fn is_number(s: Seq<char>) -> bool {
    s.len() > 0 && forall|i: int| 0 <= i < s.len() ==> is_decimal_digit(#[trigger] s[i])
}

/// The candidate that a line of input selects among `count`: the line,
/// trimmed, must write a number below `count`.
pub open spec fn spec_chosen_index(input: Seq<char>, count: nat) -> Option<nat> {
    let digits = unsigned_part(trimmed(input));
    if is_number(digits) && decimal_value(digits) < count {
        Some(decimal_value(digits))
    } else {
        None
    }
}

/// Reads the user's answer to the selection prompt: the index of a candidate,
/// or `None` for input that names none of the `count` candidates.
pub fn select_device_interactive(input: &str, count: usize) -> (choice: Option<usize>)
    ensures
        match choice {
            Some(i) => spec_chosen_index(input@, count as nat) == Some(i as nat),
            None => spec_chosen_index(input@, count as nat) is None,
        },
{
    let chars = chars_of(input);
    let (a, z) = trim_range(&chars, 0, chars.len());
    assert(chars@.subrange(0, chars.len() as int) =~= chars@);
    let ghost body = trimmed(input@);
    assert(body == chars@.subrange(a as int, z as int));
    let start: usize = if a < z && chars[a] == '+' {
        a + 1
    } else {
        a
    };
    let ghost digits = unsigned_part(body);
    assert(digits =~= chars@.subrange(start as int, z as int));
    if start == z {
        return None;
    }
    // `seen` is the value of the digits read so far, capped at `count`.
    let mut seen: usize = 0;
    let mut i: usize = start;
    assert(chars@.subrange(start as int, start as int) =~= Seq::<char>::empty());
    while i < z
        invariant
            start <= i <= z <= chars.len(),
            digits == chars@.subrange(start as int, z as int),
            digits == unsigned_part(trimmed(input@)),
            forall|k: int| start <= k < i ==> is_decimal_digit(#[trigger] chars[k]),
            seen <= count,
            seen as nat == if decimal_value(chars@.subrange(start as int, i as int)) < count {
                decimal_value(chars@.subrange(start as int, i as int))
            } else {
                count as nat
            },
        decreases z - i,
    {
        let c = chars[i];
        if !('0' <= c && c <= '9') {
            assert(!is_decimal_digit(digits[i - start]));
            return None;
        }
        let d: u128 = ((c as u32) - ('0' as u32)) as u128;
        let ghost before = chars@.subrange(start as int, i as int);
        assert(chars@.subrange(start as int, i + 1).drop_last() =~= before);
        assert(chars@.subrange(start as int, i + 1).last() == c);
        let next: u128 = (seen as u128) * 10 + d;
        if next < count as u128 {
            seen = next as usize;
        } else {
            seen = count;
        }
        i = i + 1;
    }
    assert(chars@.subrange(start as int, i as int) =~= digits);
    assert(is_number(digits)) by {
        assert forall|k: int| 0 <= k < digits.len() implies is_decimal_digit(
            #[trigger] digits[k],
        ) by {
            assert(digits[k] == chars[start + k]);
        }
    }
    if seen < count {
        Some(seen)
    } else {
        None
    }
}

/// The significant decimal digits of a number are decimal digits, and they
/// write that number.
pub proof fn significant_digits_write_the_number(n: nat)
    ensures
        forall|i: int|
            0 <= i < significant_digits(n, 10).len() ==> is_decimal_digit(
                #[trigger] significant_digits(n, 10)[i],
            ),
        decimal_value(significant_digits(n, 10)) == n,
        n > 0 ==> significant_digits(n, 10).len() > 0,
    decreases n,
{
    if n > 0 {
        let head = significant_digits(n / 10, 10);
        let d = (n % 10) as int;
        let all = significant_digits(n, 10);
        significant_digits_write_the_number(n / 10);
        assert(all == head.push(digit_char(d)));
        assert(all.drop_last() =~= head);
        assert(all.last() == digit_char(d));
        assert(is_decimal_digit(digit_char(d)));
        assert((digit_char(d) as u32) - ('0' as u32) == d);
        assert forall|i: int| 0 <= i < all.len() implies is_decimal_digit(#[trigger] all[i]) by {
            if i < head.len() {
                assert(all[i] == head[i]);
            }
        }
    }
}

/// An index typed the way the selection table shows it selects the
/// candidate of that index.
pub proof fn typed_index_selects_its_row(i: nat, count: nat)
    requires
        i < count,
    ensures
        spec_chosen_index(decimal_text(i), count) == Some(i),
{
    let text = decimal_text(i);
    significant_digits_write_the_number(i);
    assert(text.len() > 0);
    assert(forall|k: int| 0 <= k < text.len() ==> is_decimal_digit(#[trigger] text[k]));
    assert(is_decimal_digit(text[0]));
    assert(is_decimal_digit(text.last()));
    assert(!is_space(text[0]));
    assert(!is_space(text.last()));
    assert(trim_start(text) == text);
    assert(trim_end(text) == text);
    assert(trimmed(text) == text);
    assert(unsigned_part(text) == text);
    if i == 0 {
        assert(text.drop_last() =~= Seq::<char>::empty());
        assert(decimal_value(text) == 0) by {
            reveal_with_fuel(decimal_value, 2);
        }
    }
}

// ---------------------------------------------------------------------------
// The run
// ---------------------------------------------------------------------------

/// Where a run stands.
#[derive(Clone, Copy, Debug, PartialEq, Eq, Structural)]
pub enum State {
    /// The preflight checks are due.
    Init,
    /// The bus is to be scanned.
    Discover,
    /// No usable device: a hotplug event is awaited.
    WaitHotplug,
    /// There are candidates: one is to be selected.
    Select,
    /// A device is selected: it is opened, the script is loaded and run, the
    /// virtual requests are frozen.
    Prepare,
    /// The gadget is to be built and bound.
    BuildGadget,
    /// The gadget could not be built: a pause before the next scan.
    Cooldown,
    /// The gadget is bound: the host's configuration is awaited.
    AwaitHost,
    /// Reports flow.
    Run,
    /// The session is over: the gadget is removed.
    Teardown,
    /// The process was interrupted: held keys are released, the gadget is
    /// removed, the terminal is restored.
    EmergencyTeardown,
    /// The process ends with this exit code.
    Exit(u8),
}

/// What happened while the action of a state was carried out.
#[derive(Clone, Copy, Debug, PartialEq, Eq, Structural)]
pub enum Event {
    /// All preflight checks passed.
    PreflightPassed,
    /// A preflight check failed.
    PreflightFailed,
    /// A scan showed this many candidates.
    Scanned { candidates: usize },
    /// The bus could not be scanned at all.
    ScanFailed,
    /// The selection among the candidates ended like this. `AskUser` stands
    /// for an answer of the user that named no candidate.
    Selected(Selection),
    /// A device was plugged in or removed.
    Hotplug,
    /// The device is open, the script is ready and the requests are frozen.
    Prepared,
    /// The device could not be opened.
    ConnectFailed,
    /// The script could not be found, compiled or initialised.
    ScriptFailed,
    /// The gadget is built and bound.
    GadgetBuilt,
    /// The gadget could not be built.
    GadgetFailed,
    /// The pause is over.
    PauseElapsed,
    /// The host has configured the gadget.
    HostConfigured,
    /// A router loop ended.
    LoopExited(SessionEnd),
    /// The gadget is removed.
    TeardownDone,
    /// The user interrupted the process.
    Interrupt,
}

/// What the caller is to do in a state.
#[derive(Clone, Copy, Debug, PartialEq, Eq, Structural)]
pub enum Action {
    /// Run the preflight checks.
    Preflight,
    /// Scan the bus.
    Scan,
    /// Wait for a hotplug event, then for [`HOTPLUG_SETTLE_MILLIS`].
    AwaitHotplug,
    /// Select among the candidates; where the user has to pick, show them
    /// and ask, again after an answer that names none.
    Select,
    /// Open the device, load the script, run its globals and `init`, freeze
    /// the virtual requests.
    PrepareSession,
    /// Remove any old gadget, build the new one and bind it.
    BuildGadget,
    /// Wait for [`COOLDOWN_MILLIS`].
    Cooldown,
    /// Poll the controller's state until the host has configured the gadget.
    AwaitHost,
    /// Open the writers, start the tick timer and the router loops, and wait
    /// for the first loop to end.
    RunRouters,
    /// Join the router tasks, remove the gadget, wait for [`RESCAN_MILLIS`].
    Teardown,
    /// Restore the terminal and, if `gadget` is set, run the emergency cleanup
    /// of the gadget.
    EmergencyTeardown { gadget: bool },
    /// End the process with this exit code.
    Exit(u8),
}

/// A run: its state, and whether a gadget is bound at present.
#[derive(Clone, Copy, Debug, PartialEq, Eq, Structural)]
pub struct Supervisor {
    pub state: State,
    pub gadget_created: bool,
}

/// The state that follows `state` on `event`. An interrupt leads to the
/// emergency teardown from every state but the last; an event that a state
/// does not expect changes nothing.
pub open spec fn next_state(state: State, event: Event) -> State {
    match (state, event) {
        (State::Exit(code), _) => State::Exit(code),
        (State::EmergencyTeardown, Event::TeardownDone) => State::Exit(EXIT_OK),
        (State::EmergencyTeardown, _) => State::EmergencyTeardown,
        (_, Event::Interrupt) => State::EmergencyTeardown,
        (State::Init, Event::PreflightPassed) => State::Discover,
        (State::Init, Event::PreflightFailed) => State::Exit(EXIT_FATAL),
        (State::Discover, Event::Scanned { candidates }) => if candidates == 0 {
            State::WaitHotplug
        } else {
            State::Select
        },
        (State::Discover, Event::ScanFailed) => State::Exit(EXIT_FATAL),
        (State::WaitHotplug, Event::Hotplug) => State::Discover,
        (State::Select, Event::Selected(Selection::Chosen(_))) => State::Prepare,
        (State::Select, Event::Selected(Selection::TargetMissing)) => State::WaitHotplug,
        (State::Select, Event::Selected(Selection::AwaitHotplug)) => State::WaitHotplug,
        (State::Prepare, Event::Prepared) => State::BuildGadget,
        (State::Prepare, Event::ConnectFailed) => State::Discover,
        (State::Prepare, Event::ScriptFailed) => State::Exit(EXIT_FATAL),
        (State::BuildGadget, Event::GadgetBuilt) => State::AwaitHost,
        (State::BuildGadget, Event::GadgetFailed) => State::Cooldown,
        (State::Cooldown, Event::PauseElapsed) => State::Discover,
        (State::AwaitHost, Event::HostConfigured) => State::Run,
        (State::Run, Event::LoopExited(_)) => State::Teardown,
        (State::Teardown, Event::TeardownDone) => State::Discover,
        (other, _) => other,
    }
}

/// Whether a gadget is bound after `event` in `state`: from the moment it is
/// built until its teardown is done.
pub open spec fn next_gadget_created(state: State, created: bool, event: Event) -> bool {
    match (state, event) {
        (State::BuildGadget, Event::GadgetBuilt) => true,
        (State::Teardown, Event::TeardownDone) => false,
        (State::EmergencyTeardown, Event::TeardownDone) => false,
        _ => created,
    }
}

/// The action of a state.
pub open spec fn spec_action(s: Supervisor) -> Action {
    match s.state {
        State::Init => Action::Preflight,
        State::Discover => Action::Scan,
        State::WaitHotplug => Action::AwaitHotplug,
        State::Select => Action::Select,
        State::Prepare => Action::PrepareSession,
        State::BuildGadget => Action::BuildGadget,
        State::Cooldown => Action::Cooldown,
        State::AwaitHost => Action::AwaitHost,
        State::Run => Action::RunRouters,
        State::Teardown => Action::Teardown,
        State::EmergencyTeardown => Action::EmergencyTeardown { gadget: s.gadget_created },
        State::Exit(code) => Action::Exit(code),
    }
}

impl Supervisor {
    /// A run before its preflight checks.
    pub fn new() -> (s: Supervisor)
        ensures
            s == (Supervisor { state: State::Init, gadget_created: false }),
    {
        Supervisor { state: State::Init, gadget_created: false }
    }

    /// What holds of every run: while the host is awaited, while reports flow
    /// and during the teardown a gadget is bound; before a gadget is built
    /// none is.
    pub open spec fn consistent(self) -> bool {
        match self.state {
            State::AwaitHost | State::Run | State::Teardown => self.gadget_created,
            State::EmergencyTeardown | State::Exit(_) => true,
            _ => !self.gadget_created,
        }
    }

    /// What the caller is to do now.
    pub fn action(&self) -> (a: Action)
        ensures
            a == spec_action(*self),
    {
        match self.state {
            State::Init => Action::Preflight,
            State::Discover => Action::Scan,
            State::WaitHotplug => Action::AwaitHotplug,
            State::Select => Action::Select,
            State::Prepare => Action::PrepareSession,
            State::BuildGadget => Action::BuildGadget,
            State::Cooldown => Action::Cooldown,
            State::AwaitHost => Action::AwaitHost,
            State::Run => Action::RunRouters,
            State::Teardown => Action::Teardown,
            State::EmergencyTeardown => Action::EmergencyTeardown { gadget: self.gadget_created },
            State::Exit(code) => Action::Exit(code),
        }
    }

    /// Advances the run by one event and tells the action of the new state.
    pub fn run_proxy(&mut self, event: Event) -> (a: Action)
        ensures
            final(self).state == next_state(old(self).state, event),
            final(self).gadget_created == next_gadget_created(
                old(self).state,
                old(self).gadget_created,
                event,
            ),
            a == spec_action(*final(self)),
            old(self).consistent() ==> final(self).consistent(),
    {
        let state = self.state;
        let next = match (state, event) {
            (State::Exit(code), _) => State::Exit(code),
            (State::EmergencyTeardown, Event::TeardownDone) => State::Exit(EXIT_OK),
            (State::EmergencyTeardown, _) => State::EmergencyTeardown,
            (_, Event::Interrupt) => State::EmergencyTeardown,
            (State::Init, Event::PreflightPassed) => State::Discover,
            (State::Init, Event::PreflightFailed) => State::Exit(EXIT_FATAL),
            (State::Discover, Event::Scanned { candidates }) => if candidates == 0 {
                State::WaitHotplug
            } else {
                State::Select
            },
            (State::Discover, Event::ScanFailed) => State::Exit(EXIT_FATAL),
            (State::WaitHotplug, Event::Hotplug) => State::Discover,
            (State::Select, Event::Selected(Selection::Chosen(_))) => State::Prepare,
            (State::Select, Event::Selected(Selection::TargetMissing)) => State::WaitHotplug,
            (State::Select, Event::Selected(Selection::AwaitHotplug)) => State::WaitHotplug,
            (State::Prepare, Event::Prepared) => State::BuildGadget,
            (State::Prepare, Event::ConnectFailed) => State::Discover,
            (State::Prepare, Event::ScriptFailed) => State::Exit(EXIT_FATAL),
            (State::BuildGadget, Event::GadgetBuilt) => State::AwaitHost,
            (State::BuildGadget, Event::GadgetFailed) => State::Cooldown,
            (State::Cooldown, Event::PauseElapsed) => State::Discover,
            (State::AwaitHost, Event::HostConfigured) => State::Run,
            (State::Run, Event::LoopExited(_)) => State::Teardown,
            (State::Teardown, Event::TeardownDone) => State::Discover,
            (other, _) => other,
        };
        let created = match (state, event) {
            (State::BuildGadget, Event::GadgetBuilt) => true,
            (State::Teardown, Event::TeardownDone) => false,
            (State::EmergencyTeardown, Event::TeardownDone) => false,
            _ => self.gadget_created,
        };
        self.state = next;
        self.gadget_created = created;
        self.action()
    }
}

/// The state after a list of events, taken in order.
pub open spec fn state_after(s: Supervisor, events: Seq<Event>) -> Supervisor
    decreases events.len(),
{
    if events.len() == 0 {
        s
    } else {
        let before = state_after(s, events.drop_last());
        Supervisor {
            state: next_state(before.state, events.last()),
            gadget_created: next_gadget_created(before.state, before.gadget_created, events.last()),
        }
    }
}

/// Whatever happens, a run stays consistent: a gadget is bound exactly from
/// its build to its teardown.
pub proof fn run_stays_consistent(s: Supervisor, events: Seq<Event>)
    requires
        s.consistent(),
    ensures
        state_after(s, events).consistent(),
    decreases events.len(),
{
    if events.len() > 0 {
        run_stays_consistent(s, events.drop_last());
    }
}

/// Reports flow only while a gadget is bound, from whatever events a new run
/// has seen.
pub proof fn running_implies_gadget(events: Seq<Event>)
    ensures
        state_after(Supervisor { state: State::Init, gadget_created: false }, events).state
            == State::Run ==> state_after(
            Supervisor { state: State::Init, gadget_created: false },
            events,
        ).gadget_created,
{
    run_stays_consistent(Supervisor { state: State::Init, gadget_created: false }, events);
}

/// An interrupt in any state before the end leads to the emergency teardown,
/// and the end of that teardown to a normal exit.
pub proof fn interrupt_ends_the_run(s: Supervisor)
    requires
        !(s.state is Exit),
    ensures
        next_state(s.state, Event::Interrupt) == State::EmergencyTeardown,
        next_state(next_state(s.state, Event::Interrupt), Event::TeardownDone) == State::Exit(
            EXIT_OK,
        ),
{
}

/// The end of a router loop, for whatever reason, leads over the teardown
/// back to discovery.
pub proof fn session_end_leads_to_discovery(end: SessionEnd)
    ensures
        next_state(State::Run, Event::LoopExited(end)) == State::Teardown,
        next_state(State::Teardown, Event::TeardownDone) == State::Discover,
{
}

/// A gadget is built only after the session was prepared, which includes the
/// freezing of the virtual requests: the state before `BuildGadget` is
/// `Prepare`, and the event that leads there is `Prepared`.
pub proof fn gadget_is_built_after_preparation(state: State, event: Event)
    requires
        next_state(state, event) == State::BuildGadget,
        state != State::BuildGadget,
    ensures
        state == State::Prepare,
        event == Event::Prepared,
{
}

// ---------------------------------------------------------------------------
// The script of a run
// ---------------------------------------------------------------------------

/// The script of a run: none where no script was asked for; else the path
/// that the probes of its candidates resolve to, or the error that the script
/// was not found.
pub open spec fn spec_script_of_run(
    script_name: Option<Seq<char>>,
    probes: Seq<CandidateProbe>,
) -> Result<Option<Seq<char>>, ScriptError> {
    match script_name {
        None => Ok(None),
        Some(name) => match spec_resolve(name, probes) {
            Some(path) => Ok(Some(path)),
            None => Err(ScriptError::NotFound),
        },
    }
}

/// Resolves the script that the command line asked for.
pub fn resolve_script_path(script_name: Option<&str>, probes: &[CandidateProbe; 3]) -> (r: Result<
    Option<String>,
    ScriptError,
>)
    ensures
        match r {
            Ok(Some(path)) => spec_script_of_run(
                match script_name {
                    Some(n) => Some(n@),
                    None => None,
                },
                probes@,
            ) == Ok::<Option<Seq<char>>, ScriptError>(Some(path@)),
            Ok(None) => script_name is None,
            Err(e) => e == ScriptError::NotFound && script_name is Some && spec_resolve(
                script_name->0@,
                probes@,
            ) is None,
        },
{
    match script_name {
        None => Ok(None),
        Some(name) => {
            match crate::setup::resolve_script_path(name, probes) {
                Some(path) => Ok(Some(path)),
                None => Err(ScriptError::NotFound),
            }
        },
    }
}

} // verus!
