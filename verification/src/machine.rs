//! The visibility state machine: maps each received input event to a next
//! visibility state, an optional show/hide command, and an optional request
//! to re-subscribe a hot-plugged device.
//!
//! The decision is pure: `desired_state` picks the state the event calls
//! for, and `command_for` diffs the current and desired states, so that a
//! command is issued exactly when the state changes. That diff is the sole
//! mechanism preventing redundant show/hide requests. The surrounding
//! program owns the event loop: it feeds each event in, carries out the
//! returned command and subscription, and keeps the returned state for the
//! next round.

use vstd::prelude::*;

verus! {

/// Whether the pointer indicator is currently shown or hidden. The machine
/// starts `Shown`.
#[derive(Clone, Copy, Debug, PartialEq, Eq, Structural)]
pub enum State {
    Hidden,
    Shown,
}

/// The change a device-presence notification reports.
#[derive(Clone, Copy, Debug, PartialEq, Eq, Structural)]
pub enum DeviceChange {
    Enabled,
    Disabled,
    Other,
}

/// One received protocol event, reduced to what the state machine reads.
#[derive(Clone, Copy, Debug, PartialEq, Eq, Structural)]
pub enum InputEvent {
    /// Raw pointer motion (raw-motion mode only).
    RawMotion,
    /// Raw button press (raw-motion mode only).
    RawButtonPress,
    /// Per-device valuator event (legacy mode only).
    DeviceValuator,
    /// Per-device pointer motion (legacy mode only).
    DeviceMotion,
    /// Per-device button press (legacy mode only).
    DeviceButtonPress,
    /// Per-device button release (legacy mode only).
    DeviceButtonRelease,
    /// Per-device key release, with the modifier state held at the time.
    DeviceKeyRelease { modifier_state: u32 },
    /// A device was enabled, disabled or otherwise changed at the server.
    DevicePresence { device_id: u8, change: DeviceChange },
    /// Keymap/mapping change notification; observed but unused.
    MappingChange,
    /// Any event the subscription was not expected to deliver; observed and
    /// reported as a diagnostic by the caller, but inert here.
    Unrecognized,
}

/// A cursor command the caller must issue on the root window.
#[derive(Clone, Copy, Debug, PartialEq, Eq, Structural)]
pub enum Command {
    Show,
    Hide,
}

/// Events that signal pointer activity: any motion or button event, raw or
/// legacy. Each of them calls for the pointer to be shown.
pub open spec fn spec_is_pointer_activity(e: InputEvent) -> bool {
    ||| e is RawMotion
    ||| e is RawButtonPress
    ||| e is DeviceValuator
    ||| e is DeviceMotion
    ||| e is DeviceButtonPress
    ||| e is DeviceButtonRelease
}

/// A key release whose modifier state does not intersect the ignored mask:
/// the kind of event that calls for the pointer to be hidden.
pub open spec fn spec_is_hiding_key_release(e: InputEvent, ignored_mask: u32) -> bool {
    e matches InputEvent::DeviceKeyRelease { modifier_state }
        && modifier_state & ignored_mask == 0
}

/// A key release whose modifier state intersects the ignored mask: tapping
/// an ignored modifier alone must not hide the pointer.
pub open spec fn spec_is_ignored_key_release(e: InputEvent, ignored_mask: u32) -> bool {
    e matches InputEvent::DeviceKeyRelease { modifier_state }
        && modifier_state & ignored_mask != 0
}

/// The state an event calls for, given the current state:
/// - pointer activity calls for `Shown`;
/// - a key release hides, unless its modifier state intersects the ignored
///   mask, in which case the state is kept;
/// - every other event (presence, mapping change, unrecognized) keeps the
///   current state.
pub open spec fn spec_desired_state(current: State, e: InputEvent, ignored_mask: u32) -> State {
    match e {
        InputEvent::RawMotion
        | InputEvent::RawButtonPress
        | InputEvent::DeviceValuator
        | InputEvent::DeviceMotion
        | InputEvent::DeviceButtonPress
        | InputEvent::DeviceButtonRelease => State::Shown,
        InputEvent::DeviceKeyRelease { modifier_state } => if modifier_state & ignored_mask != 0 {
            current
        } else {
            State::Hidden
        },
        _ => current,
    }
}

/// Maps one event to the state it calls for.
pub fn desired_state(current: State, event: InputEvent, ignored_mask: u32) -> (r: State)
    ensures
        r == spec_desired_state(current, event, ignored_mask),
{
    match event {
        InputEvent::RawMotion
        | InputEvent::RawButtonPress
        | InputEvent::DeviceValuator
        | InputEvent::DeviceMotion
        | InputEvent::DeviceButtonPress
        | InputEvent::DeviceButtonRelease => State::Shown,
        InputEvent::DeviceKeyRelease { modifier_state } => if modifier_state & ignored_mask != 0 {
            current
        } else {
            State::Hidden
        },
        _ => current,
    }
}

/// The command a transition calls for: a command exactly when the desired
/// state differs from the current one.
pub open spec fn spec_command_for(current: State, desired: State) -> Option<Command> {
    match (current, desired) {
        (State::Shown, State::Hidden) => Some(Command::Hide),
        (State::Hidden, State::Shown) => Some(Command::Show),
        _ => None,
    }
}

/// Diffs the current and desired states into the command to issue, if any.
pub fn command_for(current: State, desired: State) -> (r: Option<Command>)
    ensures
        r == spec_command_for(current, desired),
{
    match (current, desired) {
        (State::Shown, State::Hidden) => Some(Command::Hide),
        (State::Hidden, State::Shown) => Some(Command::Show),
        _ => None,
    }
}

/// The device to re-subscribe, if the event is a presence notification with
/// change `Enabled`; every other change is observed but produces no action.
pub open spec fn spec_resubscribe_target(e: InputEvent) -> Option<u8> {
    match e {
        InputEvent::DevicePresence { device_id, change: DeviceChange::Enabled } => Some(
            device_id,
        ),
        _ => None,
    }
}

/// Picks the device whose subscriptions must be re-established, if any.
pub fn resubscribe_target(event: InputEvent) -> (r: Option<u8>)
    ensures
        r == spec_resubscribe_target(event),
{
    match event {
        InputEvent::DevicePresence { device_id, change: DeviceChange::Enabled } => Some(
            device_id,
        ),
        _ => None,
    }
}

/// Everything one iteration of the event loop decides: the next state, the
/// cursor command to issue (if any), and the device to re-subscribe (if
/// any).
#[derive(Clone, Copy, Debug, PartialEq, Eq)]
pub struct StepResult {
    pub next: State,
    pub command: Option<Command>,
    pub subscribe: Option<u8>,
}

/// One full step of the machine on one event.
pub open spec fn spec_step(current: State, e: InputEvent, ignored_mask: u32) -> StepResult {
    let next = spec_desired_state(current, e, ignored_mask);
    StepResult {
        next,
        command: spec_command_for(current, next),
        subscribe: spec_resubscribe_target(e),
    }
}

/// Processes one event: decides the next state, the command to issue, and
/// the device to re-subscribe. Pure; the caller performs the effects.
pub fn step(current: State, event: InputEvent, ignored_mask: u32) -> (r: StepResult)
    ensures
        r == spec_step(current, event, ignored_mask),
{
    let next = desired_state(current, event, ignored_mask);
    let command = command_for(current, next);
    let subscribe = resubscribe_target(event);
    StepResult { next, command, subscribe }
}

/// The state after running the machine over a whole sequence of events.
pub open spec fn spec_run_state(
    initial: State,
    events: Seq<InputEvent>,
    ignored_mask: u32,
) -> State
    decreases events.len(),
{
    if events.len() == 0 {
        initial
    } else {
        spec_desired_state(
            spec_run_state(initial, events.drop_last(), ignored_mask),
            events.last(),
            ignored_mask,
        )
    }
}

/// The commands issued while running the machine over a whole sequence of
/// events, in order.
pub open spec fn spec_run_commands(
    initial: State,
    events: Seq<InputEvent>,
    ignored_mask: u32,
) -> Seq<Command>
    decreases events.len(),
{
    if events.len() == 0 {
        Seq::empty()
    } else {
        let before = spec_run_state(initial, events.drop_last(), ignored_mask);
        let commands = spec_run_commands(initial, events.drop_last(), ignored_mask);
        match spec_command_for(
            before,
            spec_desired_state(before, events.last(), ignored_mask),
        ) {
            Some(c) => commands.push(c),
            None => commands,
        }
    }
}

/// Law: a command is issued exactly when the state changes, and its
/// direction matches the change — `Hide` exactly on `Shown` to `Hidden`,
/// `Show` exactly on `Hidden` to `Shown`. Two consecutive commands for the
/// same state are therefore impossible.
pub proof fn lemma_command_exactly_on_transition(current: State, e: InputEvent, ignored_mask: u32)
    ensures
        spec_step(current, e, ignored_mask).command is Some <==> spec_step(
            current,
            e,
            ignored_mask,
        ).next != current,
        spec_step(current, e, ignored_mask).command == Some(Command::Hide) <==> (current is Shown
            && spec_step(current, e, ignored_mask).next is Hidden),
        spec_step(current, e, ignored_mask).command == Some(Command::Show) <==> (current is Hidden
            && spec_step(current, e, ignored_mask).next is Shown),
{
}

/// Law: a key release whose modifier state intersects the ignored mask
/// changes nothing — the state is kept and no command is issued, whatever
/// the current state.
pub proof fn lemma_ignored_key_release_is_inert(current: State, e: InputEvent, ignored_mask: u32)
    requires
        spec_is_ignored_key_release(e, ignored_mask),
    ensures
        spec_step(current, e, ignored_mask).next == current,
        spec_step(current, e, ignored_mask).command is None,
        spec_step(current, e, ignored_mask).subscribe is None,
{
}

/// Law: repeated events towards the state the machine is already in issue
/// no command — pointer activity while `Shown` issues nothing and stays
/// `Shown`, and a qualifying key release while `Hidden` issues nothing and
/// stays `Hidden`.
pub proof fn lemma_repeated_events_issue_no_command(e: InputEvent, ignored_mask: u32)
    ensures
        spec_is_pointer_activity(e) ==> spec_step(State::Shown, e, ignored_mask).next is Shown
            && spec_step(State::Shown, e, ignored_mask).command is None,
        spec_is_hiding_key_release(e, ignored_mask) ==> spec_step(
            State::Hidden,
            e,
            ignored_mask,
        ).next is Hidden && spec_step(State::Hidden, e, ignored_mask).command is None,
{
}

/// Law: a device-presence notification never issues a cursor command nor
/// changes the state; it requests a re-subscription exactly when the change
/// is `Enabled`, and then for exactly the notified device.
pub proof fn lemma_presence_only_resubscribes(
    current: State,
    device_id: u8,
    change: DeviceChange,
    ignored_mask: u32,
)
    ensures
        spec_step(
            current,
            (InputEvent::DevicePresence { device_id, change }),
            ignored_mask,
        ).next == current,
        spec_step(
            current,
            (InputEvent::DevicePresence { device_id, change }),
            ignored_mask,
        ).command is None,
        spec_step(
            current,
            (InputEvent::DevicePresence { device_id, change }),
            ignored_mask,
        ).subscribe == (if change is Enabled {
            Some(device_id)
        } else {
            Option::<u8>::None
        }),
{
}

/// Law (run invariant): while a run has issued no command the state is
/// still the initial one, and once it has, the last issued command always
/// matches the state the machine is in — `Hide` exactly when `Hidden`,
/// `Show` exactly when `Shown`.
pub proof fn lemma_last_command_matches_state(
    initial: State,
    events: Seq<InputEvent>,
    ignored_mask: u32,
)
    ensures
        spec_run_commands(initial, events, ignored_mask).len() == 0 ==> spec_run_state(
            initial,
            events,
            ignored_mask,
        ) == initial,
        spec_run_commands(initial, events, ignored_mask).len() > 0 ==> (spec_run_commands(
            initial,
            events,
            ignored_mask,
        ).last() == Command::Hide <==> spec_run_state(initial, events, ignored_mask)
            == State::Hidden),
        spec_run_commands(initial, events, ignored_mask).len() > 0 ==> (spec_run_commands(
            initial,
            events,
            ignored_mask,
        ).last() == Command::Show <==> spec_run_state(initial, events, ignored_mask)
            == State::Shown),
    decreases events.len(),
{
    if events.len() > 0 {
        lemma_last_command_matches_state(initial, events.drop_last(), ignored_mask);
    }
}

/// Law: no run ever issues two consecutive commands for the same state —
/// the issued commands strictly alternate between `Hide` and `Show`.
pub proof fn lemma_commands_alternate(initial: State, events: Seq<InputEvent>, ignored_mask: u32)
    ensures
        forall|i: int|
            0 <= i && i + 1 < spec_run_commands(initial, events, ignored_mask).len()
                ==> #[trigger] spec_run_commands(initial, events, ignored_mask)[i]
                != spec_run_commands(initial, events, ignored_mask)[i + 1],
    decreases events.len(),
{
    if events.len() > 0 {
        let prefix = events.drop_last();
        lemma_commands_alternate(initial, prefix, ignored_mask);
        lemma_last_command_matches_state(initial, prefix, ignored_mask);
        let before = spec_run_state(initial, prefix, ignored_mask);
        let prefix_commands = spec_run_commands(initial, prefix, ignored_mask);
        let commands = spec_run_commands(initial, events, ignored_mask);
        match spec_command_for(
            before,
            spec_desired_state(before, events.last(), ignored_mask),
        ) {
            Some(c) => {
                assert(commands == prefix_commands.push(c));
                assert forall|i: int| 0 <= i && i + 1 < commands.len() implies #[trigger] commands[i]
                    != commands[i + 1] by {
                    if i + 1 < prefix_commands.len() {
                        assert(commands[i] == prefix_commands[i]);
                        assert(commands[i + 1] == prefix_commands[i + 1]);
                    } else {
                        assert(i == prefix_commands.len() - 1);
                        assert(commands[i] == prefix_commands.last());
                        assert(commands[i + 1] == c);
                    }
                }
            },
            None => {
                assert(commands == prefix_commands);
            },
        }
    }
}

/// Law: over any nonempty run of key releases none of which intersects the
/// ignored mask, a machine starting `Shown` issues exactly one command —
/// one hide, after the first release — and is `Hidden` from then on.
pub proof fn lemma_exactly_one_hide_for_plain_key_releases(
    events: Seq<InputEvent>,
    ignored_mask: u32,
)
    requires
        events.len() > 0,
        forall|i: int|
            0 <= i < events.len() ==> spec_is_hiding_key_release(
                #[trigger] events[i],
                ignored_mask,
            ),
    ensures
        spec_run_state(State::Shown, events, ignored_mask) == State::Hidden,
        spec_run_commands(State::Shown, events, ignored_mask) =~= seq![Command::Hide],
    decreases events.len(),
{
    let prefix = events.drop_last();
    if events.len() == 1 {
        assert(prefix.len() == 0);
        assert(spec_run_state(State::Shown, prefix, ignored_mask) == State::Shown);
        assert(spec_run_commands(State::Shown, prefix, ignored_mask) =~= Seq::<Command>::empty());
        assert(spec_is_hiding_key_release(events.last(), ignored_mask));
    } else {
        assert forall|i: int| 0 <= i < prefix.len() implies spec_is_hiding_key_release(
            #[trigger] prefix[i],
            ignored_mask,
        ) by {
            assert(prefix[i] == events[i]);
        }
        lemma_exactly_one_hide_for_plain_key_releases(prefix, ignored_mask);
        assert(spec_is_hiding_key_release(events.last(), ignored_mask));
        assert(spec_desired_state(State::Hidden, events.last(), ignored_mask) == State::Hidden);
    }
}

} // verus!
