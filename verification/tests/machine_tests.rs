use rxbanish::machine::{
    command_for, desired_state, resubscribe_target, step, Command, DeviceChange, InputEvent,
    State,
};
use rxbanish::mask::{mod_mask, Mod};

const SHIFT: u32 = 0x1;

fn pointer_activity_events() -> Vec<InputEvent> {
    vec![
        InputEvent::RawMotion,
        InputEvent::RawButtonPress,
        InputEvent::DeviceValuator,
        InputEvent::DeviceMotion,
        InputEvent::DeviceButtonPress,
        InputEvent::DeviceButtonRelease,
    ]
}

#[test]
fn startup_scenario_raw_motion_and_empty_mask() {
    // ignored mask = {}, machine starts Shown
    let r = step(State::Shown, InputEvent::DeviceKeyRelease { modifier_state: 0 }, 0);
    assert_eq!(r.next, State::Hidden);
    assert_eq!(r.command, Some(Command::Hide));
    assert_eq!(r.subscribe, None);

    let r = step(r.next, InputEvent::RawMotion, 0);
    assert_eq!(r.next, State::Shown);
    assert_eq!(r.command, Some(Command::Show));

    // shift is not ignored, so a shifted key release still hides
    let r = step(r.next, InputEvent::DeviceKeyRelease { modifier_state: SHIFT }, 0);
    assert_eq!(r.next, State::Hidden);
    assert_eq!(r.command, Some(Command::Hide));
}

#[test]
fn ignored_shift_scenario() {
    let ignored = mod_mask(Mod::Shift);

    let r = step(State::Shown, InputEvent::DeviceKeyRelease { modifier_state: SHIFT }, ignored);
    assert_eq!(r.next, State::Shown);
    assert_eq!(r.command, None);

    let r = step(r.next, InputEvent::DeviceKeyRelease { modifier_state: 0 }, ignored);
    assert_eq!(r.next, State::Hidden);
    assert_eq!(r.command, Some(Command::Hide));
}

#[test]
fn ignored_key_release_changes_nothing_in_either_state() {
    let ignored = mod_mask(Mod::Shift);
    let ev = InputEvent::DeviceKeyRelease { modifier_state: SHIFT };
    for current in [State::Shown, State::Hidden] {
        let r = step(current, ev, ignored);
        assert_eq!(r.next, current);
        assert_eq!(r.command, None);
        assert_eq!(r.subscribe, None);
    }
}

#[test]
fn presence_enabled_resubscribes_exactly_that_device() {
    let ev = InputEvent::DevicePresence { device_id: 7, change: DeviceChange::Enabled };
    let r = step(State::Shown, ev, 0);
    assert_eq!(r.subscribe, Some(7));
    assert_eq!(r.command, None);
    assert_eq!(r.next, State::Shown);
}

#[test]
fn presence_other_changes_produce_no_action() {
    for change in [DeviceChange::Disabled, DeviceChange::Other] {
        let ev = InputEvent::DevicePresence { device_id: 7, change };
        let r = step(State::Hidden, ev, 0);
        assert_eq!(r.subscribe, None);
        assert_eq!(r.command, None);
        assert_eq!(r.next, State::Hidden);
    }
}

#[test]
fn repeated_activity_while_shown_issues_nothing() {
    for ev in pointer_activity_events() {
        let r = step(State::Shown, ev, 0);
        assert_eq!(r.next, State::Shown);
        assert_eq!(r.command, None);
    }
}

#[test]
fn repeated_key_releases_while_hidden_issue_nothing() {
    let r = step(State::Hidden, InputEvent::DeviceKeyRelease { modifier_state: 0 }, 0);
    assert_eq!(r.next, State::Hidden);
    assert_eq!(r.command, None);
}

#[test]
fn any_pointer_activity_shows_from_hidden() {
    for ev in pointer_activity_events() {
        let r = step(State::Hidden, ev, 0);
        assert_eq!(r.next, State::Shown);
        assert_eq!(r.command, Some(Command::Show));
    }
}

#[test]
fn administrative_events_are_inert() {
    for ev in [InputEvent::MappingChange, InputEvent::Unrecognized] {
        for current in [State::Shown, State::Hidden] {
            let r = step(current, ev, 0);
            assert_eq!(r.next, current);
            assert_eq!(r.command, None);
            assert_eq!(r.subscribe, None);
        }
    }
}

#[test]
fn one_hide_for_a_run_of_plain_key_releases() {
    // a run of qualifying key releases from Shown issues exactly one hide
    let mut state = State::Shown;
    let mut commands = Vec::new();
    for modifier_state in [0, 0x4, 0, 0x2, 0] {
        let r = step(state, InputEvent::DeviceKeyRelease { modifier_state }, 0);
        if let Some(c) = r.command {
            commands.push(c);
        }
        state = r.next;
    }
    assert_eq!(commands, vec![Command::Hide]);
    assert_eq!(state, State::Hidden);

    // an intervening show-inducing event re-arms the hide
    let r = step(state, InputEvent::RawMotion, 0);
    assert_eq!(r.command, Some(Command::Show));
    let r = step(r.next, InputEvent::DeviceKeyRelease { modifier_state: 0 }, 0);
    assert_eq!(r.command, Some(Command::Hide));
}

#[test]
fn commands_alternate_over_a_mixed_run() {
    let events = vec![
        InputEvent::DeviceKeyRelease { modifier_state: 0 },
        InputEvent::DeviceKeyRelease { modifier_state: 0 },
        InputEvent::RawMotion,
        InputEvent::MappingChange,
        InputEvent::RawButtonPress,
        InputEvent::DeviceKeyRelease { modifier_state: SHIFT },
        InputEvent::DevicePresence { device_id: 3, change: DeviceChange::Enabled },
        InputEvent::DeviceKeyRelease { modifier_state: 0 },
        InputEvent::DeviceMotion,
    ];
    let mut state = State::Shown;
    let mut commands = Vec::new();
    for ev in events {
        let r = step(state, ev, 0);
        if let Some(c) = r.command {
            commands.push(c);
        }
        state = r.next;
    }
    assert_eq!(
        commands,
        vec![Command::Hide, Command::Show, Command::Hide, Command::Show],
    );
    for pair in commands.windows(2) {
        assert_ne!(pair[0], pair[1]);
    }
}

#[test]
fn desired_state_and_command_compose_into_step() {
    let current = State::Shown;
    let ev = InputEvent::DeviceKeyRelease { modifier_state: 0 };
    let desired = desired_state(current, ev, 0);
    assert_eq!(desired, State::Hidden);
    assert_eq!(command_for(current, desired), Some(Command::Hide));
    assert_eq!(command_for(State::Shown, State::Shown), None);
    assert_eq!(command_for(State::Hidden, State::Hidden), None);
    assert_eq!(command_for(State::Hidden, State::Shown), Some(Command::Show));
    assert_eq!(resubscribe_target(ev), None);
}
