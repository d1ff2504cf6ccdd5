use ruwm::error::Error;
use ruwm::pulse_counter::{Data, PulseCounter};
use ruwm::state::StateSnapshot;
use ruwm::water_meter::{
    delta, exchange, next_data, observe, run, start, surfaced, WaterMeter, WaterMeterCommand, WaterMeterState,
    POLL_PERIOD_SECS,
};

/// A pulse counter in memory.
struct FakeCounter {
    data: Data,
    started: bool,
    fail_get: bool,
    fail_swap: bool,
}

impl FakeCounter {
    fn holding(edges_count: u16, wakeup_edges: u16) -> Self {
        FakeCounter {
            data: Data { edges_count, wakeup_edges },
            started: false,
            fail_get: false,
            fail_swap: false,
        }
    }
}

impl PulseCounter for FakeCounter {
    type Error = ();

    fn start(&mut self) -> Result<(), ()> {
        self.started = true;
        Ok(())
    }

    fn get_data(&mut self) -> Result<Data, ()> {
        if self.fail_get {
            Err(())
        } else {
            Ok(self.data)
        }
    }

    fn swap_data(&mut self, data: &Data) -> Result<Data, ()> {
        if self.fail_swap {
            Err(())
        } else {
            Ok(std::mem::replace(&mut self.data, *data))
        }
    }
}

#[test]
fn poll_period_is_two_seconds() {
    assert_eq!(POLL_PERIOD_SECS, 2);
}

#[test]
fn default_state_is_all_clear() {
    let state = WaterMeterState::default();
    assert_eq!(
        state,
        WaterMeterState {
            prev_edges_count: 0,
            prev_armed: false,
            prev_leaking: false,
            edges_count: 0,
            armed: false,
            leaking: false,
        }
    );
}

#[test]
fn commands_set_the_wake_threshold() {
    assert_eq!(WaterMeterCommand::Arm.wakeup_edges(), 1);
    assert_eq!(WaterMeterCommand::Disarm.wakeup_edges(), 0);
}

#[test]
fn arm_resets_edges_and_sets_threshold() {
    let current = Data { edges_count: 17, wakeup_edges: 0 };
    assert_eq!(
        next_data(Some(WaterMeterCommand::Arm), current),
        Data { edges_count: 0, wakeup_edges: 1 }
    );
    assert_eq!(
        next_data(Some(WaterMeterCommand::Disarm), Data { edges_count: 17, wakeup_edges: 1 }),
        Data { edges_count: 0, wakeup_edges: 0 }
    );
}

#[test]
fn poll_resets_edges_and_keeps_threshold() {
    assert_eq!(
        next_data(None, Data { edges_count: 9, wakeup_edges: 1 }),
        Data { edges_count: 0, wakeup_edges: 1 }
    );
    assert_eq!(
        next_data(None, Data { edges_count: 9, wakeup_edges: 0 }),
        Data { edges_count: 0, wakeup_edges: 0 }
    );
}

#[test]
fn delta_has_old_edges_and_new_threshold() {
    let stored = Data { edges_count: 0, wakeup_edges: 1 };
    let previous = Data { edges_count: 4, wakeup_edges: 0 };
    assert_eq!(delta(stored, previous), Data { edges_count: 4, wakeup_edges: 1 });
}

#[test]
fn update_keeps_previous_triple() {
    let state = WaterMeterState {
        prev_edges_count: 1,
        prev_armed: false,
        prev_leaking: false,
        edges_count: 10,
        armed: true,
        leaking: true,
    };
    let next = state.updated(Data { edges_count: 0, wakeup_edges: 0 });
    assert_eq!(
        next,
        WaterMeterState {
            prev_edges_count: 10,
            prev_armed: true,
            prev_leaking: true,
            edges_count: 10,
            armed: false,
            leaking: false,
        }
    );
}

#[test]
fn armed_meter_with_new_edges_leaks() {
    let state = WaterMeterState { armed: true, edges_count: 2, ..WaterMeterState::default() };
    let next = state.updated(Data { edges_count: 1, wakeup_edges: 1 });
    assert!(next.leaking);
    assert!(next.armed);
    assert_eq!(next.edges_count, 3);
}

#[test]
fn armed_meter_without_new_edges_does_not_leak() {
    let state = WaterMeterState { armed: true, ..WaterMeterState::default() };
    let next = state.updated(Data { edges_count: 0, wakeup_edges: 1 });
    assert!(!next.leaking);
    assert!(next.armed);
}

#[test]
fn unarmed_meter_never_leaks() {
    for edges_count in [0u16, 1, 3, u16::MAX] {
        for wakeup_edges in [0u16, 1, 7] {
            let next = WaterMeterState::default().updated(Data { edges_count, wakeup_edges });
            assert!(!next.leaking);
            assert_eq!(next.edges_count, edges_count as u64);
            assert_eq!(next.armed, wakeup_edges > 0);
        }
    }
}

#[test]
fn disarmed_threshold_means_no_leak() {
    let state = WaterMeterState { armed: true, ..WaterMeterState::default() };
    let next = state.updated(Data { edges_count: 5, wakeup_edges: 0 });
    assert!(!next.leaking);
    assert!(!next.armed);
}

#[test]
fn edge_count_reaches_the_top() {
    let state = WaterMeterState { edges_count: u64::MAX - 3, ..WaterMeterState::default() };
    let next = state.updated(Data { edges_count: 3, wakeup_edges: 0 });
    assert_eq!(next.edges_count, u64::MAX);
}

#[test]
fn edges_before_any_command_are_counted() {
    let mut counter = FakeCounter::holding(5, 0);
    let mut state = StateSnapshot::new(WaterMeterState::default());
    let forward = run(&mut counter, &mut state, None).unwrap();
    let expected = WaterMeterState {
        prev_edges_count: 0,
        prev_armed: false,
        prev_leaking: false,
        edges_count: 5,
        armed: false,
        leaking: false,
    };
    assert_eq!(forward, Some(expected));
    assert_eq!(state.get(), expected);
    assert_eq!(counter.data, Data { edges_count: 0, wakeup_edges: 0 });
}

#[test]
fn arm_then_edges_before_next_poll_is_a_leak() {
    let mut counter = FakeCounter::holding(0, 0);
    let mut meter = WaterMeter::new();
    meter.command_sink(WaterMeterCommand::Arm);
    let armed = meter.process(&mut counter).unwrap().unwrap();
    assert!(armed.armed);
    assert!(!armed.leaking);
    assert_eq!(counter.data, Data { edges_count: 0, wakeup_edges: 1 });

    counter.data.edges_count = 3;
    let leaking = meter.process(&mut counter).unwrap().unwrap();
    assert!(leaking.armed);
    assert!(leaking.leaking);
    assert_eq!(leaking.edges_count, 3);
    assert_eq!(leaking.prev_edges_count, 0);
    assert_eq!(meter.state().get(), leaking);
    assert_eq!(counter.data.edges_count, 0);
}

#[test]
fn exchange_stores_what_follows_from_the_command() {
    let mut counter = FakeCounter::holding(7, 1);
    let observed = exchange(&mut counter, Some(WaterMeterCommand::Disarm));
    assert_eq!(observed, Ok(Data { edges_count: 7, wakeup_edges: 0 }));
    assert_eq!(counter.data, Data { edges_count: 0, wakeup_edges: 0 });

    counter.data.edges_count = 2;
    let observed = exchange(&mut counter, None);
    assert_eq!(observed, Ok(Data { edges_count: 2, wakeup_edges: 0 }));
}

#[test]
fn failing_read_is_a_hardware_error() {
    let mut counter = FakeCounter::holding(7, 1);
    counter.fail_get = true;
    assert_eq!(exchange(&mut counter, None), Err(Error::Hardware));
    assert_eq!(counter.data, Data { edges_count: 7, wakeup_edges: 1 });
}

#[test]
fn failing_swap_is_a_hardware_error() {
    let mut counter = FakeCounter::holding(7, 1);
    counter.fail_swap = true;
    let mut state = StateSnapshot::new(WaterMeterState::default());
    assert_eq!(run(&mut counter, &mut state, Some(WaterMeterCommand::Arm)), Err(Error::Hardware));
    assert_eq!(state.get(), WaterMeterState::default());
}

#[test]
fn unchanged_state_is_not_forwarded() {
    let mut state = StateSnapshot::new(WaterMeterState::default());
    assert_eq!(observe(&mut state, Data { edges_count: 0, wakeup_edges: 0 }), None);
    let first = observe(&mut state, Data { edges_count: 1, wakeup_edges: 0 });
    assert!(first.is_some());
    // The count stays, but the previous count catches up: that is a change.
    let second = observe(&mut state, Data { edges_count: 0, wakeup_edges: 0 });
    assert_eq!(second.unwrap().prev_edges_count, 1);
    assert_eq!(observe(&mut state, Data { edges_count: 0, wakeup_edges: 0 }), None);
}

#[test]
fn later_command_replaces_waiting_one() {
    let mut counter = FakeCounter::holding(0, 0);
    let mut meter = WaterMeter::new();
    meter.command_sink(WaterMeterCommand::Arm);
    meter.command_sink(WaterMeterCommand::Disarm);
    assert_eq!(meter.process(&mut counter), Ok(None));
    assert_eq!(counter.data.wakeup_edges, 0);
    // The command is used up: the next pass is a poll.
    counter.data.wakeup_edges = 1;
    let state = meter.process(&mut counter).unwrap().unwrap();
    assert!(state.armed);
}

#[test]
fn start_reports_failure_as_hardware_error() {
    struct Dead;
    impl PulseCounter for Dead {
        type Error = u8;
        fn start(&mut self) -> Result<(), u8> {
            Err(1)
        }
        fn get_data(&mut self) -> Result<Data, u8> {
            Err(2)
        }
        fn swap_data(&mut self, _: &Data) -> Result<Data, u8> {
            Err(3)
        }
    }
    assert_eq!(start(&mut Dead), Err(Error::Hardware));
    let mut counter = FakeCounter::holding(0, 0);
    assert_eq!(start(&mut counter), Ok(()));
    assert!(counter.started);
}

#[test]
fn meter_has_room_until_the_last_poll_that_fits() {
    let mut counter = FakeCounter::holding(u16::MAX, 0);
    let mut meter = WaterMeter::new();
    assert!(meter.has_room());
    meter.process(&mut counter).unwrap();
    assert_eq!(meter.state().get().edges_count, 65_535);
    assert!(meter.has_room());
}

#[test]
fn answers_surface_as_values_or_hardware_errors() {
    assert_eq!(surfaced(Ok::<u16, &str>(7)), Ok(7));
    assert_eq!(surfaced(Ok::<(), u8>(())), Ok(()));
    assert_eq!(surfaced(Err::<u16, &str>("bus stuck")), Err(Error::Hardware));
    assert_eq!(surfaced(Err::<Data, ()>(())), Err(Error::Hardware));
}
