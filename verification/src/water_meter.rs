//! The water meter: polls the pulse counter, keeps the running edge count
//! and decides whether the meter is armed and whether water leaks.

use vstd::prelude::*;
use crate::error::Error;
use crate::pulse_counter::{Data, PulseCounter};
use crate::signal::Mailbox;
use crate::state::{forwarded, StateSnapshot};

verus! {

/// Seconds between two polls of the pulse counter while no command arrives.
pub const POLL_PERIOD_SECS: u64 = 2;

/// The state of the water meter, with the triple it held one update earlier.
#[derive(Clone, Copy, Debug, Eq)]
pub struct WaterMeterState {
    pub prev_edges_count: u64,
    pub prev_armed: bool,
    pub prev_leaking: bool,
    pub edges_count: u64,
    pub armed: bool,
    pub leaking: bool,
}

impl PartialEq for WaterMeterState {
    fn eq(&self, other: &Self) -> (same: bool) {
        self.prev_edges_count == other.prev_edges_count && self.prev_armed == other.prev_armed
            && self.prev_leaking == other.prev_leaking && self.edges_count == other.edges_count
            && self.armed == other.armed && self.leaking == other.leaking
    }
}

impl vstd::std_specs::cmp::PartialEqSpecImpl for WaterMeterState {
    open spec fn obeys_eq_spec() -> bool {
        true
    }

    open spec fn eq_spec(&self, other: &Self) -> bool {
        *self == *other
    }
}

impl Default for WaterMeterState {
    fn default() -> (state: Self)
        ensures
            state == WaterMeterState::spec_initial(),
    {
        WaterMeterState {
            prev_edges_count: 0,
            prev_armed: false,
            prev_leaking: false,
            edges_count: 0,
            armed: false,
            leaking: false,
        }
    }
}

impl WaterMeterState {
    /// The state before anything was counted: no edges, not armed, no leak.
    pub open spec fn spec_initial() -> WaterMeterState {
        WaterMeterState {
            prev_edges_count: 0,
            prev_armed: false,
            prev_leaking: false,
            edges_count: 0,
            armed: false,
            leaking: false,
        }
    }

    /// The state after `delta` was observed.
    ///
    /// The edges of `delta` are added to the count. The meter is armed while
    /// the wake threshold is set. Water leaks where edges came in, the meter
    /// was armed before and the threshold is set.
    pub open spec fn spec_updated(self, delta: Data) -> WaterMeterState {
        WaterMeterState {
            prev_edges_count: self.edges_count,
            prev_armed: self.armed,
            prev_leaking: self.leaking,
            edges_count: (self.edges_count + delta.edges_count) as u64,
            armed: delta.wakeup_edges > 0,
            leaking: delta.edges_count > 0 && self.armed && delta.wakeup_edges > 0,
        }
    }

    /// The state after `delta` was observed.
    pub fn updated(&self, delta: Data) -> (next: Self)
        requires
            self.edges_count + delta.edges_count <= u64::MAX,
        ensures
            next == self.spec_updated(delta),
            next.edges_count == self.edges_count + delta.edges_count,
            next.leaking ==> next.armed && self.armed,
    {
        let edges_count = self.edges_count + delta.edges_count as u64;
        WaterMeterState {
            prev_edges_count: self.edges_count,
            prev_armed: self.armed,
            prev_leaking: self.leaking,
            edges_count,
            armed: delta.wakeup_edges > 0,
            leaking: self.edges_count < edges_count && self.armed && delta.wakeup_edges > 0,
        }
    }
}

/// A command to the water meter.
#[derive(Clone, Copy, Debug, PartialEq, Eq, Structural)]
pub enum WaterMeterCommand {
    /// Treat any flow from now on as a possible leak.
    Arm,
    /// Count only.
    Disarm,
}

impl WaterMeterCommand {
    /// The wake threshold that the command sets: one edge to arm, none to disarm.
    pub open spec fn spec_wakeup_edges(self) -> u16 {
        match self {
            WaterMeterCommand::Arm => 1,
            WaterMeterCommand::Disarm => 0,
        }
    }

    /// The wake threshold that the command sets.
    #[verifier::when_used_as_spec(spec_wakeup_edges)]
    pub fn wakeup_edges(self) -> (edges: u16)
        ensures
            edges == self.spec_wakeup_edges(),
    {
        match self {
            WaterMeterCommand::Arm => 1,
            WaterMeterCommand::Disarm => 0,
        }
    }
}

/// What is stored in the peripheral in place of `current`: the count starts
/// again at zero, and a command sets the wake threshold.
pub open spec fn spec_next_data(command: Option<WaterMeterCommand>, current: Data) -> Data {
    Data {
        edges_count: 0,
        wakeup_edges: match command {
            Some(command) => command.spec_wakeup_edges(),
            None => current.wakeup_edges,
        },
    }
}

/// What is stored in the peripheral in place of `current`, on `command` or,
/// with none, on a poll.
#[verifier::when_used_as_spec(spec_next_data)]
pub fn next_data(command: Option<WaterMeterCommand>, current: Data) -> (next: Data)
    ensures
        next == spec_next_data(command, current),
        next.edges_count == 0,
        command == Some(WaterMeterCommand::Arm) ==> next.wakeup_edges == 1,
        command == Some(WaterMeterCommand::Disarm) ==> next.wakeup_edges == 0,
        command is None ==> next.wakeup_edges == current.wakeup_edges,
{
    Data {
        edges_count: 0,
        wakeup_edges: match command {
            Some(command) => command.wakeup_edges(),
            None => current.wakeup_edges,
        },
    }
}

/// What one exchange with the peripheral has shown: the edges that it gave
/// up, and the wake threshold now in force.
pub open spec fn spec_delta(stored: Data, previous: Data) -> Data {
    Data { edges_count: previous.edges_count, wakeup_edges: stored.wakeup_edges }
}

/// What one exchange has shown, where `stored` went into the peripheral and
/// `previous` came out of it.
#[verifier::when_used_as_spec(spec_delta)]
pub fn delta(stored: Data, previous: Data) -> (observed: Data)
    ensures
        observed == spec_delta(stored, previous),
{
    Data { edges_count: previous.edges_count, wakeup_edges: stored.wakeup_edges }
}

/// Room left in the edge count for whatever one exchange can bring.
pub open spec fn has_headroom(state: WaterMeterState) -> bool {
    state.edges_count + u16::MAX <= u64::MAX
}

/// What the water meter makes of an answer of the peripheral: the value
/// that it gave, or a hardware error in place of whatever failure it
/// reported.
pub fn surfaced<T, E>(answer: Result<T, E>) -> (outcome: Result<T, Error>)
    ensures
        match answer {
            Ok(value) => outcome == Ok::<T, Error>(value),
            Err(_) => outcome == Err::<T, Error>(Error::Hardware),
        },
{
    match answer {
        Ok(value) => Ok(value),
        Err(_) => Err(Error::Hardware),
    }
}

/// Starts the peripheral. A failure of the peripheral is a hardware error.
pub fn start<P: PulseCounter>(pulse_counter: &mut P) -> (outcome: Result<(), Error>)
    ensures
        outcome matches Err(failure) ==> failure == Error::Hardware,
{
    surfaced(pulse_counter.start())
}

/// One exchange with the peripheral: reads it, stores the data that follow
/// from `command`, and returns what the exchange has shown. A failure of the
/// peripheral is a hardware error.
pub fn exchange<P: PulseCounter>(
    pulse_counter: &mut P,
    command: Option<WaterMeterCommand>,
) -> (outcome: Result<Data, Error>)
    ensures
        outcome matches Ok(observed) ==> (command matches Some(issued) ==> observed.wakeup_edges
            == issued.spec_wakeup_edges()),
        outcome matches Err(failure) ==> failure == Error::Hardware,
{
    let current = match surfaced(pulse_counter.get_data()) {
        Ok(data) => data,
        Err(failure) => {
            return Err(failure);
        },
    };
    let stored = next_data(command, current);
    match surfaced(pulse_counter.swap_data(&stored)) {
        Ok(previous) => Ok(delta(stored, previous)),
        Err(failure) => Err(failure),
    }
}

/// Takes `observed` into `state` and returns the new state where it differs
/// from the one before, to be forwarded.
pub fn observe(state: &mut StateSnapshot<WaterMeterState>, observed: Data) -> (forward: Option<
    WaterMeterState,
>)
    requires
        old(state).value().edges_count + observed.edges_count <= u64::MAX,
    ensures
        final(state).value() == old(state).value().spec_updated(observed),
        forward == forwarded(old(state).value(), final(state).value()),
{
    let next = state.get().updated(observed);
    state.update(next)
}

/// One pass of the water meter: an exchange with the peripheral on `command`
/// or, with none, on the poll timer, and the state update that follows from
/// it. Returns the new state where it changed. Where the peripheral fails,
/// the state is left as it was.
pub fn run<P: PulseCounter>(
    pulse_counter: &mut P,
    state: &mut StateSnapshot<WaterMeterState>,
    command: Option<WaterMeterCommand>,
) -> (outcome: Result<Option<WaterMeterState>, Error>)
    requires
        has_headroom(old(state).value()),
    ensures
        match outcome {
            Ok(forward) => exists|observed: Data|
                {
                    &&& command matches Some(issued) ==> observed.wakeup_edges
                        == issued.spec_wakeup_edges()
                    &&& final(state).value() == #[trigger] old(state).value().spec_updated(observed)
                    &&& forward == forwarded(old(state).value(), final(state).value())
                },
            Err(failure) => failure == Error::Hardware && final(state).value() == old(
                state,
            ).value(),
        },
{
    match exchange(pulse_counter, command) {
        Ok(observed) => Ok(observe(state, observed)),
        Err(failure) => Err(failure),
    }
}

/// The water meter task: its state and the slot through which commands
/// reach it.
#[derive(Debug)]
pub struct WaterMeter {
    state: StateSnapshot<WaterMeterState>,
    command: Mailbox<WaterMeterCommand>,
}

impl WaterMeter {
    /// The committed state.
    pub closed spec fn current(&self) -> WaterMeterState {
        self.state.value()
    }

    /// The command that waits to be carried out, if any.
    pub closed spec fn pending_command(&self) -> Option<WaterMeterCommand> {
        self.command.waiting()
    }

    /// A meter in its first state with no command waiting.
    pub fn new() -> (meter: Self)
        ensures
            meter.current() == WaterMeterState::spec_initial(),
            meter.pending_command() is None,
    {
        WaterMeter {
            state: StateSnapshot::new(WaterMeterState::default()),
            command: Mailbox::new(),
        }
    }

    /// The cell that holds the state.
    pub fn state(&self) -> (cell: &StateSnapshot<WaterMeterState>)
        ensures
            cell.value() == self.current(),
    {
        &self.state
    }

    /// Whether the edge count has room for whatever the next pass can bring.
    pub fn has_room(&self) -> (room: bool)
        ensures
            room == has_headroom(self.current()),
    {
        self.state.get().edges_count <= u64::MAX - 65_535
    }

    /// Leaves `command` for the next pass; it replaces one that still waits.
    pub fn command_sink(&mut self, command: WaterMeterCommand)
        ensures
            final(self).pending_command() == Some(command),
            final(self).current() == old(self).current(),
    {
        self.command.send(command);
    }

    /// One pass: carries out the waiting command or, with none, polls.
    pub fn process<P: PulseCounter>(&mut self, pulse_counter: &mut P) -> (outcome: Result<
        Option<WaterMeterState>,
        Error,
    >)
        requires
            has_headroom(old(self).current()),
        ensures
            final(self).pending_command() is None,
            match outcome {
                Ok(forward) => exists|observed: Data|
                    {
                        &&& old(self).pending_command() matches Some(issued)
                            ==> observed.wakeup_edges == issued.spec_wakeup_edges()
                        &&& final(self).current() == #[trigger] old(self).current().spec_updated(
                            observed,
                        )
                        &&& forward == forwarded(old(self).current(), final(self).current())
                    },
                Err(failure) => failure == Error::Hardware && final(self).current() == old(
                    self,
                ).current(),
            },
    {
        let command = self.command.try_recv();
        run(pulse_counter, &mut self.state, command)
    }
}

/// Once the meter is not armed, no update reports a leak, whatever the
/// peripheral has counted.
pub proof fn lemma_no_leak_unless_armed(state: WaterMeterState, observed: Data)
    requires
        !state.armed,
    ensures
        !state.spec_updated(observed).leaking,
{
}

/// An armed meter whose threshold is set reports a leak as soon as edges
/// come in between two polls.
pub proof fn lemma_leak_when_armed(state: WaterMeterState, current: Data, previous: Data)
    requires
        state.armed,
        current.wakeup_edges > 0,
        previous.edges_count > 0,
    ensures
        state.spec_updated(spec_delta(spec_next_data(None, current), previous)).leaking,
        state.spec_updated(spec_delta(spec_next_data(None, current), previous)).armed,
{
}

/// A reported leak means that the meter is armed, and was so before.
pub proof fn lemma_leaking_only_while_armed(state: WaterMeterState, observed: Data)
    ensures
        state.spec_updated(observed).leaking ==> state.spec_updated(observed).armed && state.armed,
{
}

/// While the count has room, an update never lowers it.
pub proof fn lemma_edges_never_decrease(state: WaterMeterState, observed: Data)
    requires
        state.edges_count + observed.edges_count <= u64::MAX,
    ensures
        state.spec_updated(observed).edges_count >= state.edges_count,
        state.spec_updated(observed).prev_edges_count == state.edges_count,
{
}

} // verus!
