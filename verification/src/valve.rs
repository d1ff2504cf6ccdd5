//! The valve actuator: three output lines that drive a motor through a timed
//! spin, and the state that the rest of the system sees.

use vstd::prelude::*;
use crate::state::{forwarded, StateSnapshot};
use crate::time::Duration;

verus! {

/// Seconds that the motor needs for a full turn.
pub const VALVE_TURN_DELAY_SECS: u64 = 20;

/// What is known of the valve's position.
#[derive(Clone, Copy, Debug, Eq)]
pub enum ValveState {
    Open,
    Closed,
    Opening,
    Closing,
}

impl PartialEq for ValveState {
    fn eq(&self, other: &Self) -> (same: bool) {
        match (*self, *other) {
            (ValveState::Open, ValveState::Open) => true,
            (ValveState::Closed, ValveState::Closed) => true,
            (ValveState::Opening, ValveState::Opening) => true,
            (ValveState::Closing, ValveState::Closing) => true,
            _ => false,
        }
    }
}

impl vstd::std_specs::cmp::PartialEqSpecImpl for ValveState {
    open spec fn obeys_eq_spec() -> bool {
        true
    }

    open spec fn eq_spec(&self, other: &Self) -> bool {
        *self == *other
    }
}

/// A requested turn of the valve. No command at all means: stop the motor.
#[derive(Clone, Copy, Debug, PartialEq, Eq, Structural)]
pub enum ValveCommand {
    Open,
    Close,
}

impl ValveCommand {
    /// The state of the valve while the motor carries the command out.
    pub open spec fn spec_spinning(self) -> ValveState {
        match self {
            ValveCommand::Open => ValveState::Opening,
            ValveCommand::Close => ValveState::Closing,
        }
    }

    /// The state in which the valve rests once the command was carried out.
    pub open spec fn spec_resting(self) -> ValveState {
        match self {
            ValveCommand::Open => ValveState::Open,
            ValveCommand::Close => ValveState::Closed,
        }
    }

    /// The state of the valve while the motor carries the command out.
    #[verifier::when_used_as_spec(spec_spinning)]
    pub fn spinning(self) -> (state: ValveState)
        ensures
            state == self.spec_spinning(),
    {
        match self {
            ValveCommand::Open => ValveState::Opening,
            ValveCommand::Close => ValveState::Closing,
        }
    }

    /// The state in which the valve rests once the command was carried out.
    #[verifier::when_used_as_spec(spec_resting)]
    pub fn resting(self) -> (state: ValveState)
        ensures
            state == self.spec_resting(),
    {
        match self {
            ValveCommand::Open => ValveState::Open,
            ValveCommand::Close => ValveState::Closed,
        }
    }
}

/// One of the three output lines of the actuator.
#[derive(Clone, Copy, Debug, PartialEq, Eq, Structural)]
pub enum ValvePin {
    /// Enables power to the motor.
    Power,
    /// Selects the opening direction.
    Open,
    /// Selects the closing direction.
    Close,
}

/// One line set to one level.
#[derive(Clone, Copy, Debug, PartialEq, Eq, Structural)]
pub struct PinWrite {
    pub pin: ValvePin,
    pub high: bool,
}

/// The levels of the three output lines; `true` is high.
#[derive(Clone, Copy, Debug, PartialEq, Eq, Structural)]
pub struct ValveOutputs {
    pub power: bool,
    pub open: bool,
    pub close: bool,
}

impl ValveOutputs {
    /// Both directions asserted at once, which the motor must never see.
    pub open spec fn conflicting(self) -> bool {
        self.open && self.close
    }

    /// The levels after one write.
    pub open spec fn with(self, write: PinWrite) -> ValveOutputs {
        match write.pin {
            ValvePin::Power => ValveOutputs { power: write.high, ..self },
            ValvePin::Open => ValveOutputs { open: write.high, ..self },
            ValvePin::Close => ValveOutputs { close: write.high, ..self },
        }
    }

    /// The levels after `writes`, carried out in order.
    pub open spec fn with_all(self, writes: Seq<PinWrite>) -> ValveOutputs
        decreases writes.len(),
    {
        if writes.len() == 0 {
            self
        } else {
            self.with_all(writes.drop_last()).with(writes.last())
        }
    }

    /// All three lines low.
    pub fn new() -> (outputs: Self)
        ensures
            outputs == spin_target(None),
    {
        ValveOutputs { power: false, open: false, close: false }
    }

    /// Carries out one write.
    pub fn apply(&mut self, write: PinWrite)
        ensures
            *final(self) == old(self).with(write),
    {
        match write.pin {
            ValvePin::Power => {
                self.power = write.high;
            },
            ValvePin::Open => {
                self.open = write.high;
            },
            ValvePin::Close => {
                self.close = write.high;
            },
        }
    }

    /// Drives the lines for `command`, whatever they held before: an open or
    /// a close command powers the motor in that one direction, no command
    /// takes all three lines low.
    pub fn spin(&mut self, command: Option<ValveCommand>)
        ensures
            *final(self) == spin_target(command),
            *final(self) == old(self).with_all(spin_writes(command)),
            !final(self).conflicting(),
    {
        let writes = start_spin(command);
        proof {
            lemma_with_all_three(*old(self), writes@);
        }
        self.apply(writes[0]);
        self.apply(writes[1]);
        self.apply(writes[2]);
    }
}

/// The levels that the lines hold once `command` is in effect.
pub open spec fn spin_target(command: Option<ValveCommand>) -> ValveOutputs {
    match command {
        Some(ValveCommand::Open) => ValveOutputs { power: true, open: true, close: false },
        Some(ValveCommand::Close) => ValveOutputs { power: true, open: false, close: true },
        None => ValveOutputs { power: false, open: false, close: false },
    }
}

/// The writes that put `command` into effect, in the order in which they are
/// carried out. A direction is released before the other is asserted, and
/// power comes last; to stop, power goes first.
pub open spec fn spin_writes(command: Option<ValveCommand>) -> Seq<PinWrite> {
    match command {
        Some(ValveCommand::Open) => seq![
            PinWrite { pin: ValvePin::Close, high: false },
            PinWrite { pin: ValvePin::Open, high: true },
            PinWrite { pin: ValvePin::Power, high: true },
        ],
        Some(ValveCommand::Close) => seq![
            PinWrite { pin: ValvePin::Open, high: false },
            PinWrite { pin: ValvePin::Close, high: true },
            PinWrite { pin: ValvePin::Power, high: true },
        ],
        None => seq![
            PinWrite { pin: ValvePin::Power, high: false },
            PinWrite { pin: ValvePin::Open, high: false },
            PinWrite { pin: ValvePin::Close, high: false },
        ],
    }
}

/// The writes that put `command` into effect, in order. Both the task that
/// turns the valve and the emergency path drive the lines through these.
pub fn start_spin(command: Option<ValveCommand>) -> (writes: [PinWrite; 3])
    ensures
        writes@ == spin_writes(command),
{
    match command {
        Some(ValveCommand::Open) => [
            PinWrite { pin: ValvePin::Close, high: false },
            PinWrite { pin: ValvePin::Open, high: true },
            PinWrite { pin: ValvePin::Power, high: true },
        ],
        Some(ValveCommand::Close) => [
            PinWrite { pin: ValvePin::Open, high: false },
            PinWrite { pin: ValvePin::Close, high: true },
            PinWrite { pin: ValvePin::Power, high: true },
        ],
        None => [
            PinWrite { pin: ValvePin::Power, high: false },
            PinWrite { pin: ValvePin::Open, high: false },
            PinWrite { pin: ValvePin::Close, high: false },
        ],
    }
}

/// The time that the motor is given for a full turn.
pub fn valve_turn_delay() -> (delay: Duration)
    ensures
        delay.spec_as_secs() == VALVE_TURN_DELAY_SECS,
        delay.spec_subsec_nanos() == 0,
{
    Duration::from_secs(VALVE_TURN_DELAY_SECS)
}

/// What the surroundings have to do after a step of the valve task.
#[derive(Clone, Copy, Debug)]
pub struct ValveStep {
    /// The writes to carry out on the output lines, in order.
    pub writes: [PinWrite; 3],
    /// The one-shot timer to arm, if any; [`Valve::stop`] is due when it expires.
    pub timer: Option<Duration>,
    /// The new valve state to forward, where the step changed it.
    pub forward: Option<Option<ValveState>>,
}

/// The valve task: turns commands into timed spins and keeps the valve state.
#[derive(Debug)]
pub struct Valve {
    state: StateSnapshot<Option<ValveState>>,
    turning: Option<ValveCommand>,
}

impl Valve {
    /// The committed valve state; `None` while the position is unknown.
    pub closed spec fn position(&self) -> Option<ValveState> {
        self.state.value()
    }

    /// The command that the motor is carrying out, if it runs.
    pub closed spec fn turning(&self) -> Option<ValveCommand> {
        self.turning
    }

    /// A valve of unknown position with the motor at rest.
    pub fn new() -> (valve: Self)
        ensures
            valve.position() is None,
            valve.turning() is None,
    {
        Valve { state: StateSnapshot::new(None), turning: None }
    }

    /// The cell that holds the valve state.
    pub fn state(&self) -> (cell: &StateSnapshot<Option<ValveState>>)
        ensures
            cell.value() == self.position(),
    {
        &self.state
    }

    /// Takes up `command`: the lines are to be driven for it, the turn timer
    /// armed, and the valve counts as opening or closing.
    pub fn start(&mut self, command: ValveCommand) -> (step: ValveStep)
        ensures
            step.writes@ == spin_writes(Some(command)),
            step.timer matches Some(delay) && delay.spec_as_secs() == VALVE_TURN_DELAY_SECS
                && delay.spec_subsec_nanos() == 0,
            step.forward == forwarded(old(self).position(), Some(command.spinning())),
            final(self).position() == Some(command.spinning()),
            final(self).turning() == Some(command),
    {
        self.turning = Some(command);
        let forward = self.state.update(Some(command.spinning()));
        ValveStep { writes: start_spin(Some(command)), timer: Some(valve_turn_delay()), forward }
    }

    /// Ends the turn: all lines are to go low, and a valve that was turning
    /// now rests open or closed. With the motor at rest already this changes
    /// nothing and asks for the same writes again.
    pub fn stop(&mut self) -> (step: ValveStep)
        ensures
            step.writes@ == spin_writes(None),
            step.timer is None,
            step.forward == forwarded(old(self).position(), final(self).position()),
            final(self).position() == match old(self).turning() {
                Some(command) => Some(command.resting()),
                None => old(self).position(),
            },
            final(self).turning() is None,
    {
        let forward = match self.turning {
            Some(command) => self.state.update(Some(command.resting())),
            None => None,
        };
        self.turning = None;
        ValveStep { writes: start_spin(None), timer: None, forward }
    }
}

/// The emergency shutoff, for a device that a leak has woken: close, give the
/// motor its full turn, stop.
#[derive(Clone, Copy, Debug)]
pub struct EmergencyClose {
    /// The writes that start the closing turn.
    pub close: [PinWrite; 3],
    /// How long to hold before stopping.
    pub hold: Duration,
    /// The writes that stop the motor.
    pub stop: [PinWrite; 3],
}

/// The emergency shutoff. It is carried out at once and in order, before any
/// task exists, and uses the same writes as the valve task.
pub fn emergency_valve_close() -> (plan: EmergencyClose)
    ensures
        plan.close@ == spin_writes(Some(ValveCommand::Close)),
        plan.hold.spec_as_secs() == VALVE_TURN_DELAY_SECS,
        plan.hold.spec_subsec_nanos() == 0,
        plan.stop@ == spin_writes(None),
{
    EmergencyClose {
        close: start_spin(Some(ValveCommand::Close)),
        hold: valve_turn_delay(),
        stop: start_spin(None),
    }
}

/// Three writes in a row, spelled out.
proof fn lemma_with_all_three(prior: ValveOutputs, writes: Seq<PinWrite>)
    requires
        writes.len() == 3,
    ensures
        prior.with_all(writes) == prior.with(writes[0]).with(writes[1]).with(writes[2]),
{
    let two = writes.drop_last();
    let one = two.drop_last();
    assert(prior.with_all(one.drop_last()) == prior);
    assert(prior.with_all(one) == prior.with(writes[0]));
    assert(prior.with_all(two) == prior.with(writes[0]).with(writes[1]));
}

/// From any levels, the writes for `command` end at the levels of `command`.
pub proof fn lemma_spin_reaches_target(prior: ValveOutputs, command: Option<ValveCommand>)
    ensures
        prior.with_all(spin_writes(command)) == spin_target(command),
        !spin_target(command).conflicting(),
{
    lemma_with_all_three(prior, spin_writes(command));
}

/// Where the two directions are not asserted together to begin with, they
/// are not asserted together after any of the writes for `command` either.
pub proof fn lemma_spin_never_conflicts(
    prior: ValveOutputs,
    command: Option<ValveCommand>,
    done: int,
)
    requires
        !prior.conflicting(),
        0 <= done <= 3,
    ensures
        !prior.with_all(spin_writes(command).take(done)).conflicting(),
{
    let writes = spin_writes(command);
    let first = writes.take(1);
    let second = writes.take(2);
    assert(first.drop_last() =~= writes.take(0));
    assert(second.drop_last() =~= first);
    assert(writes.take(3) =~= writes);
    assert(prior.with_all(writes.take(0)) == prior);
    assert(prior.with_all(first) == prior.with(writes[0]));
    assert(prior.with_all(second) == prior.with(writes[0]).with(writes[1]));
}

} // verus!
