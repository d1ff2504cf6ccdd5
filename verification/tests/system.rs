use ruwm::error::Error;
use ruwm::pulse_counter::{Data, PulseCounter};
use ruwm::screen::{Action, ActionSet, Command, DataSource, Page, ScreenEvent};
use ruwm::schedule::{
    domain_of, startup_tasks, Domain, Schedule, Task, TaskRegistry, DOMAIN_CAPACITY,
};
use ruwm::system::{run, ScreenPass, SleepWakeupReason, System};
use ruwm::time::Duration;
use ruwm::valve::{start_spin, valve_turn_delay, ValveCommand, ValveState};
use ruwm::water_meter::{WaterMeterCommand, WaterMeterState};

const LOCAL: [Task; 5] =
    [Task::Valve, Task::ValveSpin, Task::WaterMeter, Task::Button1, Task::Button3];

const BACKGROUND: [Task; 7] = [
    Task::WaterMeterStats,
    Task::Battery,
    Task::Button2,
    Task::Emergency,
    Task::Keepalive,
    Task::ScreenDraw,
    Task::Screen,
];

const NETWORK: [Task; 5] =
    [Task::MqttSend, Task::MqttReceive, Task::WebSend, Task::WebReceive, Task::Wifi];

struct Counter {
    data: Data,
    broken: bool,
}

impl PulseCounter for Counter {
    type Error = ();

    fn start(&mut self) -> Result<(), ()> {
        Ok(())
    }

    fn get_data(&mut self) -> Result<Data, ()> {
        if self.broken {
            Err(())
        } else {
            Ok(self.data)
        }
    }

    fn swap_data(&mut self, data: &Data) -> Result<Data, ()> {
        Ok(std::mem::replace(&mut self.data, *data))
    }
}

fn pending(system: &System) -> Vec<usize> {
    (0..7).filter(|index| system.screen_wake[*index].is_pending()).collect()
}

#[test]
fn tasks_run_in_their_domains() {
    for task in LOCAL {
        assert_eq!(domain_of(task), Domain::Local);
    }
    for task in BACKGROUND {
        assert_eq!(domain_of(task), Domain::Background);
    }
    for task in NETWORK {
        assert_eq!(domain_of(task), Domain::Network);
    }
}

#[test]
fn startup_names_every_task_once() {
    let tasks = startup_tasks();
    assert_eq!(tasks.len(), 17);
    for task in LOCAL.iter().chain(BACKGROUND.iter()).chain(NETWORK.iter()) {
        assert_eq!(tasks.iter().filter(|other| *other == task).count(), 1);
    }
    assert_eq!(tasks[0], Task::Valve);
    assert_eq!(tasks[16], Task::Wifi);
}

#[test]
fn registry_keeps_tasks_in_order() {
    let mut registry = TaskRegistry::new();
    assert!(registry.is_empty());
    assert_eq!(registry.len(), 0);
    assert_eq!(registry.get(0), None);
    assert_eq!(registry.register(Task::Wifi), Ok(()));
    assert_eq!(registry.register(Task::Valve), Ok(()));
    assert_eq!(registry.register(Task::Wifi), Ok(()));
    assert!(!registry.is_empty());
    assert_eq!(registry.len(), 3);
    assert_eq!(registry.get(0), Some(Task::Wifi));
    assert_eq!(registry.get(1), Some(Task::Valve));
    assert_eq!(registry.get(2), Some(Task::Wifi));
    assert_eq!(registry.get(3), None);
    assert_eq!(registry.tasks(), vec![Task::Wifi, Task::Valve, Task::Wifi]);
}

#[test]
fn full_registry_refuses_another_task() {
    assert_eq!(DOMAIN_CAPACITY, 64);
    let mut registry = TaskRegistry::new();
    for _ in 0..64 {
        assert_eq!(registry.register(Task::Battery), Ok(()));
    }
    assert_eq!(registry.len(), 64);
    assert_eq!(registry.register(Task::Screen), Err(Error::CapacityExceeded));
    assert_eq!(registry.len(), 64);
    assert_eq!(registry.get(63), Some(Task::Battery));
    assert_eq!(registry.tasks(), vec![Task::Battery; 64]);
}

#[test]
fn spawn_registers_in_the_tasks_domain() {
    let mut schedule = Schedule::new();
    assert_eq!(schedule.spawn(Task::Screen), Ok(()));
    assert_eq!(schedule.spawn(Task::Wifi), Ok(()));
    assert_eq!(schedule.spawn(Task::Battery), Ok(()));
    assert_eq!(schedule.registry(Domain::Local).tasks(), vec![]);
    assert_eq!(schedule.registry(Domain::Background).tasks(), vec![Task::Screen, Task::Battery]);
    assert_eq!(schedule.registry(Domain::Network).tasks(), vec![Task::Wifi]);
}

#[test]
fn spawn_all_stops_at_the_first_full_domain() {
    let mut schedule = Schedule::new();
    let mut tasks = vec![Task::Wifi; 64];
    tasks.push(Task::Valve);
    tasks.push(Task::MqttSend);
    tasks.push(Task::Battery);
    assert_eq!(schedule.spawn_all(&tasks), Err(Error::CapacityExceeded));
    assert_eq!(schedule.registry(Domain::Network).len(), 64);
    assert_eq!(schedule.registry(Domain::Local).tasks(), vec![Task::Valve]);
    assert_eq!(schedule.registry(Domain::Background).len(), 0);
    // The other domains still have room.
    assert_eq!(schedule.spawn_all(&[Task::Battery, Task::Valve]), Ok(()));
    assert_eq!(schedule.registry(Domain::Background).tasks(), vec![Task::Battery]);
    assert_eq!(schedule.spawn(Task::Wifi), Err(Error::CapacityExceeded));
}

#[test]
fn spawn_all_of_nothing_changes_nothing() {
    let mut schedule = Schedule::new();
    assert_eq!(schedule.spawn_all(&[]), Ok(()));
    for domain in [Domain::Local, Domain::Background, Domain::Network] {
        assert!(schedule.registry(domain).is_empty());
    }
}

#[test]
fn only_a_leak_wake_calls_for_the_shutoff() {
    assert!(SleepWakeupReason::ULP.is_leak());
    for reason in [
        SleepWakeupReason::Unknown,
        SleepWakeupReason::Button,
        SleepWakeupReason::Timer,
        SleepWakeupReason::Other(0),
        SleepWakeupReason::Other(7),
    ] {
        assert!(!reason.is_leak());
    }
}

#[test]
fn run_schedules_every_task_after_a_plain_wake() {
    let startup = run(SleepWakeupReason::Timer).unwrap();
    assert!(startup.emergency.is_none());
    assert_eq!(startup.schedule.registry(Domain::Local).tasks(), LOCAL.to_vec());
    assert_eq!(startup.schedule.registry(Domain::Background).tasks(), BACKGROUND.to_vec());
    assert_eq!(startup.schedule.registry(Domain::Network).tasks(), NETWORK.to_vec());
}

#[test]
fn run_closes_the_valve_first_after_a_leak_wake() {
    let startup = run(SleepWakeupReason::ULP).unwrap();
    let shutoff = startup.emergency.unwrap();
    assert_eq!(shutoff.close, start_spin(Some(ValveCommand::Close)));
    assert_eq!(shutoff.hold, valve_turn_delay());
    assert_eq!(shutoff.stop, start_spin(None));
    assert_eq!(startup.schedule.registry(Domain::Local).len(), 5);
    assert_eq!(startup.schedule.registry(Domain::Background).len(), 7);
    assert_eq!(startup.schedule.registry(Domain::Network).len(), 5);
}

#[test]
fn new_system_is_quiet() {
    let mut system = System::new();
    assert!(!system.should_quit());
    assert_eq!(system.valve.state().get(), None);
    assert_eq!(system.wm.state().get(), WaterMeterState::default());
    assert_eq!(pending(&system), vec![]);
    assert!(!system.draw_request.is_pending());
    assert_eq!(system.screen(ActionSet::empty()), None);
    assert!(system.valve().is_none());
    system.request_quit();
    assert!(system.should_quit());
}

#[test]
fn commands_reach_their_tasks() {
    let mut system = System::new();
    system.command(Command::Valve(ValveCommand::Open));
    system.command(Command::WaterMeter(WaterMeterCommand::Arm));
    assert_eq!(system.valve_command.try_recv(), Some(ValveCommand::Open));
    let mut counter = Counter { data: Data { edges_count: 0, wakeup_edges: 0 }, broken: false };
    let state = system.wm(&mut counter).unwrap().unwrap();
    assert!(state.armed);
    assert_eq!(counter.data.wakeup_edges, 1);
}

#[test]
fn valve_pass_spins_and_wakes_the_screen() {
    let mut system = System::new();
    system.command(Command::Valve(ValveCommand::Close));
    let step = system.valve().unwrap();
    assert_eq!(step.writes, start_spin(Some(ValveCommand::Close)));
    assert_eq!(step.timer, Some(valve_turn_delay()));
    assert_eq!(step.forward, Some(Some(ValveState::Closing)));
    assert_eq!(pending(&system), vec![3]);
    assert!(system.valve().is_none());

    assert_eq!(
        system.screen(ActionSet::empty()),
        Some(ScreenPass { event: ScreenEvent::Valve, command: None })
    );
    assert_eq!(pending(&system), vec![]);

    let step = system.valve_spin();
    assert_eq!(step.writes, start_spin(None));
    assert_eq!(step.forward, Some(Some(ValveState::Closed)));
    assert_eq!(pending(&system), vec![3]);
    assert_eq!(system.valve.state().get(), Some(ValveState::Closed));

    system.screen(ActionSet::empty());
    assert_eq!(system.valve_spin().forward, None);
    assert_eq!(pending(&system), vec![]);
}

#[test]
fn water_meter_pass_feeds_statistics_and_screen() {
    let mut system = System::new();
    let mut counter = Counter { data: Data { edges_count: 5, wakeup_edges: 0 }, broken: false };
    let state = system.wm(&mut counter).unwrap().unwrap();
    assert_eq!(state.edges_count, 5);
    assert_eq!(pending(&system), vec![4]);

    let stats = system.wm_stats(Duration::from_secs(10)).unwrap();
    assert_eq!(stats.most_recent.edges_count(), 5);
    assert_eq!(stats.most_recent.time(), Duration::from_secs(10));

    // Nothing new: the second pass only lets the previous count catch up.
    system.wm(&mut counter).unwrap().unwrap();
    assert_eq!(system.wm(&mut counter), Ok(None));
}

#[test]
fn failing_counter_leaves_the_system_alone() {
    let mut system = System::new();
    let mut counter = Counter { data: Data { edges_count: 5, wakeup_edges: 0 }, broken: true };
    assert_eq!(system.wm(&mut counter), Err(Error::Hardware));
    assert_eq!(system.wm.state().get(), WaterMeterState::default());
    assert_eq!(pending(&system), vec![]);
}

#[test]
fn screen_takes_wake_sources_in_order() {
    let mut system = System::new();
    system.notify_screen(ScreenEvent::Battery);
    system.notify_screen(ScreenEvent::Button2);
    system.notify_screen(ScreenEvent::Battery);
    assert_eq!(pending(&system), vec![1, 5]);
    assert_eq!(system.screen(ActionSet::empty()).unwrap().event, ScreenEvent::Button2);
    assert_eq!(system.screen.active_page(), Page::Battery);
    assert_eq!(system.screen(ActionSet::empty()).unwrap().event, ScreenEvent::Battery);
    assert_eq!(system.screen(ActionSet::empty()), None);
    assert!(system.draw_request.is_pending());
}

#[test]
fn menu_action_becomes_a_command() {
    let mut active = ActionSet::empty();
    active.insert(Action::Arm);
    let mut system = System::new();
    system.notify_screen(ScreenEvent::Button3);
    assert_eq!(
        system.screen(active),
        Some(ScreenPass { event: ScreenEvent::Button3, command: None })
    );
    assert_eq!(system.screen.page_actions().unwrap().1, Action::Arm);
    system.notify_screen(ScreenEvent::Button3);
    assert_eq!(
        system.screen(active),
        Some(ScreenPass {
            event: ScreenEvent::Button3,
            command: Some(Command::WaterMeter(WaterMeterCommand::Arm)),
        })
    );
    assert_eq!(system.screen.page_actions(), None);

    let mut counter = Counter { data: Data { edges_count: 0, wakeup_edges: 0 }, broken: false };
    system.wm(&mut counter).unwrap();
    assert_eq!(counter.data.wakeup_edges, 1);
    assert!(system.valve().is_none());
}

#[test]
fn screen_draw_hands_out_one_snapshot_per_request() {
    let mut system = System::new();
    assert!(system.screen_draw().is_none());
    system.notify_screen(ScreenEvent::Valve);
    system.notify_screen(ScreenEvent::WaterMeter);
    system.screen(ActionSet::empty());
    system.screen(ActionSet::empty());
    let snapshot = system.screen_draw().unwrap();
    assert!(snapshot.changeset().contains(DataSource::Valve));
    assert!(snapshot.changeset().contains(DataSource::WM));
    assert!(!system.screen.changeset().contains(DataSource::Valve));
    assert!(!system.screen.changeset().contains(DataSource::Page));
    assert!(system.screen_draw().is_none());
}

#[test]
fn valve_action_reaches_the_valve_task() {
    let mut active = ActionSet::empty();
    active.insert(Action::CloseValve);
    let mut system = System::new();
    system.notify_screen(ScreenEvent::Button3);
    system.notify_screen(ScreenEvent::Button3);
    system.screen(active);
    system.notify_screen(ScreenEvent::Button3);
    let pass = system.screen(active).unwrap();
    assert_eq!(pass.command, Some(Command::Valve(ValveCommand::Close)));
    assert_eq!(system.valve_command.peek(), Some(ValveCommand::Close));
    let step = system.valve().unwrap();
    assert_eq!(step.writes, start_spin(Some(ValveCommand::Close)));
}

#[test]
fn rooms_are_checked_before_a_pass() {
    let mut system = System::new();
    assert!(system.wm.has_room());
    assert!(system.wm_stats.has_room());
    system.wm_stats.wm_state_sink(WaterMeterState { edges_count: u64::MAX, ..WaterMeterState::default() });
    assert!(system.wm_stats.has_room());
    system.wm_stats(Duration::from_secs(1));
    // On the timer the latest count would be added to itself.
    assert!(!system.wm_stats.has_room());
    system.wm_stats.wm_state_sink(WaterMeterState::default());
    assert!(system.wm_stats.has_room());
    system.wm_stats.wm_state_sink(WaterMeterState { edges_count: 1, ..WaterMeterState::default() });
    assert!(!system.wm_stats.has_room());
}
