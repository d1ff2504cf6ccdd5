//! The composition root: the one context that the tasks share, the wiring
//! between the components, and what happens first after a wake-up.

use vstd::prelude::*;
use crate::error::Error;
use crate::pulse_counter::{Data, PulseCounter};
use crate::schedule::{
    assigned, lemma_startup_fits, startup_order, startup_tasks, Domain, Schedule,
};
use crate::screen::{
    handled, run_draw, triggered, ActionSet, Command, DataSource, Page, ScreenEvent, ScreenState,
    ScreenView,
};
use crate::signal::{select_array, Mailbox, Signal};
use crate::state::forwarded;
use crate::time::Duration;
use crate::valve::{
    emergency_valve_close, spin_writes, EmergencyClose, Valve, ValveCommand, ValveStep,
    VALVE_TURN_DELAY_SECS,
};
use crate::water_meter::{has_headroom, WaterMeter, WaterMeterState};
use crate::water_meter_stats::{spec_edges_figure, WaterMeterStats, WaterMeterStatsState};

verus! {

/// The one context that the tasks share: each component, the slots and
/// signals between them, and the wish to quit.
pub struct System {
    /// The valve task.
    pub valve: Valve,
    /// The slot through which valve commands reach the valve task.
    pub valve_command: Mailbox<ValveCommand>,
    /// The water meter task.
    pub wm: WaterMeter,
    /// The statistics task.
    pub wm_stats: WaterMeterStats,
    /// What the screen shows.
    pub screen: ScreenState,
    /// The wake sources of the screen, one for each [`ScreenEvent`].
    pub screen_wake: [Signal; 7],
    /// The request to redraw the screen.
    pub draw_request: Signal,
    /// Whether the domains are to wind down.
    pub quit: bool,
}

/// What one pass of the screen's input side has done.
#[derive(Clone, Copy, Debug, PartialEq, Eq, Structural)]
pub struct ScreenPass {
    /// The event that was handled.
    pub event: ScreenEvent,
    /// The command that the event set off and that was handed to its task.
    pub command: Option<Command>,
}

/// The command that `event` sets off on a screen in state `before`.
pub open spec fn commanded(before: ScreenView, event: ScreenEvent) -> Option<Command> {
    match triggered(before, event) {
        Some(action) => action.spec_trigger(),
        None => None,
    }
}

/// The wake sources of the screen after `event` was signalled on them.
pub open spec fn woken(wake: [Signal; 7], event: ScreenEvent) -> Seq<Signal> {
    wake@.update(event.spec_index() as int, wake[event.spec_index() as int].notified())
}

/// The wake sources of the screen after `event` was signalled on them, where
/// there is one.
pub open spec fn woken_if(wake: [Signal; 7], event: Option<ScreenEvent>) -> Seq<Signal> {
    match event {
        Some(event) => woken(wake, event),
        None => wake@,
    }
}

/// The event that the screen takes up next: that of the first wake source,
/// in their order, on which a wake is pending.
pub open spec fn next_screen_event(wake: [Signal; 7]) -> Option<ScreenEvent> {
    if wake[0].pending() {
        Some(ScreenEvent::Button1)
    } else if wake[1].pending() {
        Some(ScreenEvent::Button2)
    } else if wake[2].pending() {
        Some(ScreenEvent::Button3)
    } else if wake[3].pending() {
        Some(ScreenEvent::Valve)
    } else if wake[4].pending() {
        Some(ScreenEvent::WaterMeter)
    } else if wake[5].pending() {
        Some(ScreenEvent::Battery)
    } else if wake[6].pending() {
        Some(ScreenEvent::RemainingTime)
    } else {
        None
    }
}

impl System {
    /// A system in which nothing has happened yet.
    pub fn new() -> (system: Self)
        ensures
            system.valve.position() is None,
            system.valve.turning() is None,
            system.valve_command.waiting() is None,
            system.wm.current() == WaterMeterState::spec_initial(),
            system.wm.pending_command() is None,
            system.wm_stats.current().is_initial(),
            system.wm_stats.arrived() is None,
            system.screen@.changeset == Set::<DataSource>::full(),
            system.screen@.active_page == Page::Summary,
            system.screen@.page_actions is None,
            forall|i: int| 0 <= i < 7 ==> !(#[trigger] system.screen_wake[i]).pending(),
            !system.draw_request.pending(),
            !system.quit,
    {
        System {
            valve: Valve::new(),
            valve_command: Mailbox::new(),
            wm: WaterMeter::new(),
            wm_stats: WaterMeterStats::new(),
            screen: ScreenState::new(),
            screen_wake: [Signal::new(); 7],
            draw_request: Signal::new(),
            quit: false,
        }
    }

    /// Whether the domains are to wind down. Each domain looks at this
    /// between two steps of its tasks.
    pub fn should_quit(&self) -> (quit: bool)
        ensures
            quit == self.quit,
    {
        self.quit
    }

    /// Asks the domains to wind down.
    pub fn request_quit(&mut self)
        ensures
            final(self).quit,
            final(self).valve == old(self).valve,
            final(self).valve_command == old(self).valve_command,
            final(self).wm == old(self).wm,
            final(self).wm_stats == old(self).wm_stats,
            final(self).screen == old(self).screen,
            final(self).screen_wake == old(self).screen_wake,
            final(self).draw_request == old(self).draw_request,
    {
        self.quit = true;
    }

    /// Signals `event` to the screen.
    pub fn notify_screen(&mut self, event: ScreenEvent)
        ensures
            final(self).screen_wake@ == woken(old(self).screen_wake, event),
            final(self).valve == old(self).valve,
            final(self).valve_command == old(self).valve_command,
            final(self).wm == old(self).wm,
            final(self).wm_stats == old(self).wm_stats,
            final(self).screen == old(self).screen,
            final(self).draw_request == old(self).draw_request,
            final(self).quit == old(self).quit,
    {
        let index = event.index();
        let mut signal = self.screen_wake[index];
        signal.notify();
        self.screen_wake[index] = signal;
    }

    /// Hands `command` to the task that carries it out.
    pub fn command(&mut self, command: Command)
        ensures
            match command {
                Command::Valve(turn) => {
                    &&& final(self).valve_command.waiting() == Some(turn)
                    &&& final(self).wm == old(self).wm
                },
                Command::WaterMeter(arming) => {
                    &&& final(self).wm.pending_command() == Some(arming)
                    &&& final(self).wm.current() == old(self).wm.current()
                    &&& final(self).valve_command == old(self).valve_command
                },
            },
            final(self).valve == old(self).valve,
            final(self).wm_stats == old(self).wm_stats,
            final(self).screen == old(self).screen,
            final(self).screen_wake == old(self).screen_wake,
            final(self).draw_request == old(self).draw_request,
            final(self).quit == old(self).quit,
    {
        match command {
            Command::Valve(turn) => {
                self.valve_command.send(turn);
            },
            Command::WaterMeter(arming) => {
                self.wm.command_sink(arming);
            },
        }
    }

    /// One pass of the valve task: takes up the waiting command, if there is
    /// one, and tells the screen where the valve state changed by it.
    pub fn valve(&mut self) -> (step: Option<ValveStep>)
        ensures
            final(self).valve_command.waiting() is None,
            match old(self).valve_command.waiting() {
                Some(turn) => {
                    &&& step matches Some(started)
                    &&& started.writes@ == spin_writes(Some(turn))
                    &&& started.timer matches Some(delay) && delay.spec_as_secs()
                        == VALVE_TURN_DELAY_SECS && delay.spec_subsec_nanos() == 0
                    &&& started.forward == forwarded(
                        old(self).valve.position(),
                        Some(turn.spec_spinning()),
                    )
                    &&& final(self).valve.position() == Some(turn.spec_spinning())
                    &&& final(self).valve.turning() == Some(turn)
                    &&& final(self).screen_wake@ == woken_if(
                        old(self).screen_wake,
                        if started.forward is Some {
                            Some(ScreenEvent::Valve)
                        } else {
                            None
                        },
                    )
                },
                None => {
                    &&& step is None
                    &&& final(self).valve == old(self).valve
                    &&& final(self).screen_wake == old(self).screen_wake
                },
            },
            final(self).wm == old(self).wm,
            final(self).wm_stats == old(self).wm_stats,
            final(self).screen == old(self).screen,
            final(self).draw_request == old(self).draw_request,
            final(self).quit == old(self).quit,
    {
        match self.valve_command.try_recv() {
            Some(turn) => {
                let step = self.valve.start(turn);
                if step.forward.is_some() {
                    self.notify_screen(ScreenEvent::Valve);
                }
                Some(step)
            },
            None => None,
        }
    }

    /// The end of a turn of the valve: stops the motor and tells the screen
    /// where the valve state changed by it.
    pub fn valve_spin(&mut self) -> (step: ValveStep)
        ensures
            step.writes@ == spin_writes(None),
            step.timer is None,
            step.forward == forwarded(old(self).valve.position(), final(self).valve.position()),
            final(self).valve.position() == match old(self).valve.turning() {
                Some(turn) => Some(turn.spec_resting()),
                None => old(self).valve.position(),
            },
            final(self).valve.turning() is None,
            final(self).screen_wake@ == woken_if(
                old(self).screen_wake,
                if step.forward is Some {
                    Some(ScreenEvent::Valve)
                } else {
                    None
                },
            ),
            final(self).valve_command == old(self).valve_command,
            final(self).wm == old(self).wm,
            final(self).wm_stats == old(self).wm_stats,
            final(self).screen == old(self).screen,
            final(self).draw_request == old(self).draw_request,
            final(self).quit == old(self).quit,
    {
        let step = self.valve.stop();
        if step.forward.is_some() {
            self.notify_screen(ScreenEvent::Valve);
        }
        step
    }

    /// One pass of the water meter task. A state that changed by it goes to
    /// the statistics and wakes the screen, and is returned for the sinks
    /// outside.
    pub fn wm<P: PulseCounter>(&mut self, pulse_counter: &mut P) -> (outcome: Result<
        Option<WaterMeterState>,
        Error,
    >)
        requires
            has_headroom(old(self).wm.current()),
        ensures
            final(self).wm.pending_command() is None,
            match outcome {
                Ok(forward) => {
                    &&& exists|observed: Data|
                        {
                            &&& old(self).wm.pending_command() matches Some(issued)
                                ==> observed.wakeup_edges == issued.spec_wakeup_edges()
                            &&& final(self).wm.current()
                                == #[trigger] old(self).wm.current().spec_updated(observed)
                        }
                    &&& forward == forwarded(old(self).wm.current(), final(self).wm.current())
                    &&& match forward {
                        Some(state) => {
                            &&& final(self).wm_stats.arrived() == Some(state)
                            &&& final(self).screen_wake@ == woken(
                                old(self).screen_wake,
                                ScreenEvent::WaterMeter,
                            )
                        },
                        None => {
                            &&& final(self).wm_stats.arrived() == old(self).wm_stats.arrived()
                            &&& final(self).screen_wake == old(self).screen_wake
                        },
                    }
                },
                Err(failure) => {
                    &&& failure == Error::Hardware
                    &&& final(self).wm.current() == old(self).wm.current()
                    &&& final(self).wm_stats == old(self).wm_stats
                    &&& final(self).screen_wake == old(self).screen_wake
                },
            },
            final(self).wm_stats.current() == old(self).wm_stats.current(),
            final(self).valve == old(self).valve,
            final(self).valve_command == old(self).valve_command,
            final(self).screen == old(self).screen,
            final(self).draw_request == old(self).draw_request,
            final(self).quit == old(self).quit,
    {
        match self.wm.process(pulse_counter) {
            Ok(forward) => {
                match forward {
                    Some(state) => {
                        self.wm_stats.wm_state_sink(state);
                        self.notify_screen(ScreenEvent::WaterMeter);
                    },
                    None => {},
                }
                Ok(forward)
            },
            Err(failure) => Err(failure),
        }
    }

    /// One pass of the statistics task at `now`. Returns the statistics
    /// where they changed, for the sinks outside.
    pub fn wm_stats(&mut self, now: Duration) -> (forward: Option<WaterMeterStatsState>)
        requires
            old(self).wm_stats.current().most_recent.spec_edges_count() + spec_edges_figure(
                old(self).wm_stats.arrived(),
                old(self).wm_stats.current(),
            ) <= u64::MAX,
        ensures
            final(self).wm_stats.arrived() is None,
            old(self).wm_stats.current().updates_to(
                spec_edges_figure(old(self).wm_stats.arrived(), old(self).wm_stats.current()),
                now,
                final(self).wm_stats.current(),
            ),
            forward == forwarded(old(self).wm_stats.current(), final(self).wm_stats.current()),
            final(self).valve == old(self).valve,
            final(self).valve_command == old(self).valve_command,
            final(self).wm == old(self).wm,
            final(self).screen == old(self).screen,
            final(self).screen_wake == old(self).screen_wake,
            final(self).draw_request == old(self).draw_request,
            final(self).quit == old(self).quit,
    {
        self.wm_stats.process(now)
    }

    /// One pass of the screen's input side: takes up the first pending wake
    /// source, in their order, and lets the screen handle its event, which
    /// asks for a redraw. What a triggered action asks for goes to the task
    /// that carries it out. Returns the event and that command, or `None`
    /// where no wake was pending and the caller has to suspend.
    pub fn screen(&mut self, active: ActionSet) -> (pass: Option<ScreenPass>)
        ensures
            match pass {
                Some(taken) => {
                    &&& Some(taken.event) == next_screen_event(old(self).screen_wake)
                    &&& taken.command == commanded(old(self).screen@, taken.event)
                    &&& final(self).screen_wake@ == old(self).screen_wake@.update(
                        taken.event.spec_index() as int,
                        old(self).screen_wake[taken.event.spec_index() as int].waited(),
                    )
                    &&& final(self).screen@ == handled(old(self).screen@, taken.event, active@)
                    &&& final(self).draw_request.pending()
                    &&& match taken.command {
                        Some(Command::Valve(turn)) => final(self).valve_command.waiting() == Some(
                            turn,
                        ) && final(self).wm == old(self).wm,
                        Some(Command::WaterMeter(arming)) => final(self).wm.pending_command()
                            == Some(arming) && final(self).wm.current() == old(self).wm.current()
                            && final(self).valve_command == old(self).valve_command,
                        None => {
                            &&& final(self).valve_command == old(self).valve_command
                            &&& final(self).wm == old(self).wm
                        },
                    }
                },
                None => {
                    &&& next_screen_event(old(self).screen_wake) is None
                    &&& final(self).screen_wake == old(self).screen_wake
                    &&& final(self).screen == old(self).screen
                    &&& final(self).draw_request == old(self).draw_request
                    &&& final(self).valve_command == old(self).valve_command
                    &&& final(self).wm == old(self).wm
                },
            },
            final(self).valve == old(self).valve,
            final(self).wm_stats == old(self).wm_stats,
            final(self).quit == old(self).quit,
    {
        let ready = select_array(&mut self.screen_wake);
        let event = match ready {
            Some(index) => ScreenEvent::from_index(index),
            None => None,
        };
        match event {
            Some(event) => {
                let command = crate::screen::process(
                    &mut self.screen,
                    &mut self.draw_request,
                    event,
                    active,
                );
                match command {
                    Some(command) => {
                        self.command(command);
                    },
                    None => {},
                }
                Some(ScreenPass { event, command })
            },
            None => None,
        }
    }

    /// One pass of the screen's drawing side: where a redraw was asked for,
    /// the screen state to draw, while the state starts over with nothing
    /// marked as changed.
    pub fn screen_draw(&mut self) -> (snapshot: Option<ScreenState>)
        ensures
            !final(self).draw_request.pending(),
            old(self).draw_request.pending() ==> {
                &&& snapshot == Some(old(self).screen)
                &&& final(self).screen@ == (ScreenView {
                    changeset: Set::<DataSource>::empty(),
                    ..old(self).screen@
                })
            },
            !old(self).draw_request.pending() ==> {
                &&& snapshot is None
                &&& final(self).screen == old(self).screen
            },
            final(self).valve == old(self).valve,
            final(self).valve_command == old(self).valve_command,
            final(self).wm == old(self).wm,
            final(self).wm_stats == old(self).wm_stats,
            final(self).screen_wake == old(self).screen_wake,
            final(self).quit == old(self).quit,
    {
        run_draw(&mut self.screen, &mut self.draw_request)
    }
}

/// Why the device woke up.
#[derive(Clone, Copy, Debug, PartialEq, Eq, Structural)]
pub enum SleepWakeupReason {
    Unknown,
    /// The pulse counter saw flow while the meter was armed.
    ULP,
    Button,
    Timer,
    Other(u32),
}

impl SleepWakeupReason {
    /// Whether the wake-up calls for the emergency shutoff: it does where the
    /// pulse counter has woken the device.
    pub open spec fn spec_is_leak(self) -> bool {
        self == SleepWakeupReason::ULP
    }

    /// Whether the wake-up calls for the emergency shutoff.
    #[verifier::when_used_as_spec(spec_is_leak)]
    pub fn is_leak(self) -> (leak: bool)
        ensures
            leak == self.spec_is_leak(),
    {
        match self {
            SleepWakeupReason::ULP => true,
            _ => false,
        }
    }
}

/// What the device does after a wake-up, in this order.
pub struct Startup {
    /// The emergency shutoff, to be carried out before anything else.
    pub emergency: Option<EmergencyClose>,
    /// The tasks to run, by domain.
    pub schedule: Schedule,
}

/// What the device does after it woke up for `wakeup_reason`: the emergency
/// shutoff first, where a leak woke it, and then every task of the
/// controller in its domain, in the order of the start-up.
pub fn run(wakeup_reason: SleepWakeupReason) -> (outcome: Result<Startup, Error>)
    ensures
        outcome matches Ok(startup) && {
            &&& startup.emergency is Some <==> wakeup_reason.spec_is_leak()
            &&& startup.emergency matches Some(shutoff) ==> {
                &&& shutoff.close@ == spin_writes(Some(ValveCommand::Close))
                &&& shutoff.hold.spec_as_secs() == VALVE_TURN_DELAY_SECS
                &&& shutoff.hold.spec_subsec_nanos() == 0
                &&& shutoff.stop@ == spin_writes(None)
            }
            &&& forall|domain: Domain| #[trigger]
                startup.schedule.tasks_of(domain) == assigned(startup_order(), domain)
        },
{
    let emergency = if wakeup_reason.is_leak() {
        Some(emergency_valve_close())
    } else {
        None
    };
    let mut schedule = Schedule::new();
    let tasks = startup_tasks();
    proof {
        lemma_startup_fits();
    }
    match schedule.spawn_all(tasks.as_slice()) {
        Ok(()) => {
            Ok(Startup { emergency, schedule })
        },
        Err(failure) => Err(failure),
    }
}

} // verus!
