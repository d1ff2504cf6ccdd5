use ruwm::valve::{
    emergency_valve_close, start_spin, valve_turn_delay, PinWrite, Valve, ValveCommand, ValveOutputs,
    ValvePin, ValveState, VALVE_TURN_DELAY_SECS,
};

fn all_outputs() -> Vec<ValveOutputs> {
    let mut all = Vec::new();
    for bits in 0..8u8 {
        all.push(ValveOutputs { power: bits & 1 != 0, open: bits & 2 != 0, close: bits & 4 != 0 });
    }
    all
}

#[test]
fn spin_open_from_any_outputs() {
    for mut outputs in all_outputs() {
        outputs.spin(Some(ValveCommand::Open));
        assert_eq!(outputs, ValveOutputs { power: true, open: true, close: false });
    }
}

#[test]
fn spin_close_from_any_outputs() {
    for mut outputs in all_outputs() {
        outputs.spin(Some(ValveCommand::Close));
        assert_eq!(outputs, ValveOutputs { power: true, open: false, close: true });
    }
}

#[test]
fn spin_none_from_any_outputs() {
    for mut outputs in all_outputs() {
        outputs.spin(None);
        assert_eq!(outputs, ValveOutputs { power: false, open: false, close: false });
        outputs.spin(None);
        assert_eq!(outputs, ValveOutputs::new());
    }
}

#[test]
fn writes_never_assert_both_directions() {
    let commands = [Some(ValveCommand::Open), Some(ValveCommand::Close), None];
    for prior in all_outputs() {
        if prior.open && prior.close {
            continue;
        }
        for command in commands {
            let mut outputs = prior;
            for write in start_spin(command) {
                outputs.apply(write);
                assert!(!(outputs.open && outputs.close));
            }
        }
    }
}

#[test]
fn open_writes_release_close_first() {
    assert_eq!(
        start_spin(Some(ValveCommand::Open)),
        [
            PinWrite { pin: ValvePin::Close, high: false },
            PinWrite { pin: ValvePin::Open, high: true },
            PinWrite { pin: ValvePin::Power, high: true },
        ]
    );
    assert_eq!(
        start_spin(Some(ValveCommand::Close)),
        [
            PinWrite { pin: ValvePin::Open, high: false },
            PinWrite { pin: ValvePin::Close, high: true },
            PinWrite { pin: ValvePin::Power, high: true },
        ]
    );
    assert_eq!(
        start_spin(None),
        [
            PinWrite { pin: ValvePin::Power, high: false },
            PinWrite { pin: ValvePin::Open, high: false },
            PinWrite { pin: ValvePin::Close, high: false },
        ]
    );
}

#[test]
fn commands_map_to_states() {
    assert_eq!(ValveCommand::Open.spinning(), ValveState::Opening);
    assert_eq!(ValveCommand::Close.spinning(), ValveState::Closing);
    assert_eq!(ValveCommand::Open.resting(), ValveState::Open);
    assert_eq!(ValveCommand::Close.resting(), ValveState::Closed);
}

#[test]
fn turn_delay_is_twenty_seconds() {
    assert_eq!(VALVE_TURN_DELAY_SECS, 20);
    assert_eq!(valve_turn_delay().as_secs(), 20);
    assert_eq!(valve_turn_delay().subsec_nanos(), 0);
}

#[test]
fn valve_task_runs_a_timed_spin() {
    let mut valve = Valve::new();
    assert_eq!(valve.state().get(), None);

    let step = valve.start(ValveCommand::Open);
    assert_eq!(step.writes, start_spin(Some(ValveCommand::Open)));
    assert_eq!(step.timer, Some(valve_turn_delay()));
    assert_eq!(step.forward, Some(Some(ValveState::Opening)));
    assert_eq!(valve.state().get(), Some(ValveState::Opening));

    let step = valve.stop();
    assert_eq!(step.writes, start_spin(None));
    assert_eq!(step.timer, None);
    assert_eq!(step.forward, Some(Some(ValveState::Open)));
    assert_eq!(valve.state().get(), Some(ValveState::Open));
}

#[test]
fn repeated_command_forwards_once() {
    let mut valve = Valve::new();
    assert_eq!(valve.start(ValveCommand::Close).forward, Some(Some(ValveState::Closing)));
    assert_eq!(valve.start(ValveCommand::Close).forward, None);
    assert_eq!(valve.stop().forward, Some(Some(ValveState::Closed)));
}

#[test]
fn stop_at_rest_changes_nothing() {
    let mut valve = Valve::new();
    let step = valve.stop();
    assert_eq!(step.writes, start_spin(None));
    assert_eq!(step.forward, None);
    assert_eq!(valve.state().get(), None);
    valve.start(ValveCommand::Close);
    valve.stop();
    assert_eq!(valve.stop().forward, None);
    assert_eq!(valve.state().get(), Some(ValveState::Closed));
}

#[test]
fn emergency_closes_holds_and_stops() {
    let plan = emergency_valve_close();
    assert_eq!(plan.close, start_spin(Some(ValveCommand::Close)));
    assert_eq!(plan.hold, valve_turn_delay());
    assert_eq!(plan.stop, start_spin(None));

    let mut outputs = ValveOutputs { power: true, open: true, close: false };
    for write in plan.close {
        outputs.apply(write);
    }
    assert_eq!(outputs, ValveOutputs { power: true, open: false, close: true });
    for write in plan.stop {
        outputs.apply(write);
    }
    assert_eq!(outputs, ValveOutputs { power: false, open: false, close: false });
}
