//! Flow statistics: measurements of the edge count over eight windows of
//! fixed length, each of which turns over on its own.

use vstd::prelude::*;
use crate::signal::Mailbox;
use crate::state::{forwarded, StateSnapshot};
use crate::time::{Duration, NANOS_PER_SEC};
use crate::water_meter::WaterMeterState;

verus! {

/// The number of windows.
pub const FLOW_STATS_INSTANCES: usize = 8;

/// Seconds between two updates while no water meter state arrives.
pub const UPDATE_PERIOD_SECS: u64 = 10;

/// The length of window `index` in seconds: 5 and 30 minutes, 1, 6, 12 and
/// 24 hours, 7 and 30 days.
pub open spec fn spec_window_secs(index: int) -> u64 {
    if index == 0 {
        300
    } else if index == 1 {
        1_800
    } else if index == 2 {
        3_600
    } else if index == 3 {
        21_600
    } else if index == 4 {
        43_200
    } else if index == 5 {
        86_400
    } else if index == 6 {
        604_800
    } else {
        2_592_000
    }
}

/// The length of window `index`.
pub fn window_duration(index: usize) -> (length: Duration)
    requires
        index < FLOW_STATS_INSTANCES,
    ensures
        length == Duration::spec_from_secs(spec_window_secs(index as int)),
        length.spec_as_secs() == spec_window_secs(index as int),
        length.spec_subsec_nanos() == 0,
{
    let secs: u64 = if index == 0 {
        300
    } else if index == 1 {
        1_800
    } else if index == 2 {
        3_600
    } else if index == 3 {
        21_600
    } else if index == 4 {
        43_200
    } else if index == 5 {
        86_400
    } else if index == 6 {
        604_800
    } else {
        2_592_000
    };
    Duration::from_secs(secs)
}

/// The whole second at or before `start` that is a multiple of `length`.
pub open spec fn aligned_start_secs(start: Duration, length: Duration) -> int {
    (start.spec_as_secs() / length.spec_as_secs()) * length.spec_as_secs()
}

/// Whether `length` has passed between `start` and `now`.
pub open spec fn nonaligned_due(start: Duration, now: Duration, length: Duration) -> bool {
    now@ >= start@ + length@
}

/// Whether `length` has passed at `now` since the aligned start of a window
/// that began at `start`.
pub open spec fn aligned_due(start: Duration, now: Duration, length: Duration) -> bool {
    now@ >= aligned_start_secs(start, length) * NANOS_PER_SEC + length@
}

/// The edge count at one point in time.
#[derive(Clone, Copy, Debug, PartialEq, Eq, Structural)]
pub struct FlowSnapshot {
    time: Duration,
    edges_count: u64,
}

impl FlowSnapshot {
    /// The time at which the count was taken.
    pub closed spec fn spec_time(&self) -> Duration {
        self.time
    }

    /// The edges counted by then.
    pub closed spec fn spec_edges_count(&self) -> u64 {
        self.edges_count
    }

    /// The count `current_edges_count` taken at `current_time`.
    pub fn new(current_time: Duration, current_edges_count: u64) -> (snapshot: Self)
        ensures
            snapshot.spec_time() == current_time,
            snapshot.spec_edges_count() == current_edges_count,
    {
        FlowSnapshot { time: current_time, edges_count: current_edges_count }
    }

    /// The time at which the count was taken.
    #[verifier::when_used_as_spec(spec_time)]
    pub fn time(&self) -> (time: Duration)
        ensures
            time == self.spec_time(),
    {
        self.time
    }

    /// The edges counted by then.
    #[verifier::when_used_as_spec(spec_edges_count)]
    pub fn edges_count(&self) -> (edges_count: u64)
        ensures
            edges_count == self.spec_edges_count(),
    {
        self.edges_count
    }

    /// Whether a window of `measurement_duration` that began with this
    /// snapshot is complete at `current_time`.
    pub fn is_measurement_due(
        &self,
        measurement_duration: Duration,
        current_time: Duration,
    ) -> (due: bool)
        requires
            measurement_duration.spec_as_secs() > 0,
        ensures
            due == aligned_due(self.spec_time(), current_time, measurement_duration),
    {
        Self::is_aligned_measurement_due(self.time, current_time, measurement_duration)
    }

    /// Whether more than one edge came in since the snapshot.
    pub fn flow_detected(&self, current_edges_count: u64) -> (detected: bool)
        requires
            current_edges_count >= self.spec_edges_count(),
        ensures
            detected == (current_edges_count - self.spec_edges_count() > 1),
    {
        self.statistics(current_edges_count) > 1
    }

    /// The edges that came in since the snapshot.
    pub fn statistics(&self, current_edges_count: u64) -> (edges: u64)
        requires
            current_edges_count >= self.spec_edges_count(),
        ensures
            edges == current_edges_count - self.spec_edges_count(),
    {
        current_edges_count - self.edges_count
    }

    /// Whether `measurement_duration` has passed between `start_time` and
    /// `current_time`. A `current_time` before `start_time` is not due.
    pub fn is_nonaligned_measurement_due(
        start_time: Duration,
        current_time: Duration,
        measurement_duration: Duration,
    ) -> (due: bool)
        ensures
            due == nonaligned_due(start_time, current_time, measurement_duration),
    {
        current_time.as_nanos() >= start_time.as_nanos() + measurement_duration.as_nanos()
    }

    /// Whether `measurement_duration` has passed at `current_time` since the
    /// last whole multiple of it at or before `start_time`.
    pub fn is_aligned_measurement_due(
        start_time: Duration,
        current_time: Duration,
        measurement_duration: Duration,
    ) -> (due: bool)
        requires
            measurement_duration.spec_as_secs() > 0,
        ensures
            due == aligned_due(start_time, current_time, measurement_duration),
    {
        let length_secs = measurement_duration.as_secs();
        let periods = start_time.as_secs() / length_secs;
        proof {
            lemma_aligned_start_brackets(start_time, measurement_duration);
        }
        let aligned = Duration::from_secs(periods * length_secs);
        Self::is_nonaligned_measurement_due(aligned, current_time, measurement_duration)
    }
}

/// Two snapshots with the same time and count are the same snapshot.
pub proof fn lemma_snapshot_by_parts(a: FlowSnapshot, b: FlowSnapshot)
    requires
        a.spec_time() == b.spec_time(),
        a.spec_edges_count() == b.spec_edges_count(),
    ensures
        a == b,
{
}

/// A completed window: the snapshot it began with and the one it ended with.
#[derive(Clone, Copy, Debug, PartialEq, Eq, Structural)]
pub struct FlowMeasurement {
    start: FlowSnapshot,
    end: FlowSnapshot,
}

impl FlowMeasurement {
    /// The snapshot that the window began with.
    pub closed spec fn spec_start(&self) -> FlowSnapshot {
        self.start
    }

    /// The snapshot that the window ended with.
    pub closed spec fn spec_end(&self) -> FlowSnapshot {
        self.end
    }

    /// The window from `start` to `end`.
    pub fn new(start: FlowSnapshot, end: FlowSnapshot) -> (measurement: Self)
        ensures
            measurement.spec_start() == start,
            measurement.spec_end() == end,
    {
        FlowMeasurement { start, end }
    }

    /// The snapshot that the window began with.
    pub fn start(&self) -> (start: &FlowSnapshot)
        ensures
            *start == self.spec_start(),
    {
        &self.start
    }

    /// The snapshot that the window ended with.
    pub fn end(&self) -> (end: &FlowSnapshot)
        ensures
            *end == self.spec_end(),
    {
        &self.end
    }
}

/// Two measurements with the same start and end are the same measurement.
pub proof fn lemma_measurement_by_parts(a: FlowMeasurement, b: FlowMeasurement)
    requires
        a.spec_start() == b.spec_start(),
        a.spec_end() == b.spec_end(),
    ensures
        a == b,
{
}

/// The statistics: where counting began, the latest count, and for each
/// window its running start and its last completed measurement.
#[derive(Clone, Copy, Debug, Eq)]
pub struct WaterMeterStatsState {
    pub installation: FlowSnapshot,
    pub most_recent: FlowSnapshot,
    pub snapshots: [FlowSnapshot; 8],
    pub measurements: [Option<FlowMeasurement>; 8],
}

impl PartialEq for WaterMeterStatsState {
    fn eq(&self, other: &Self) -> (same: bool) {
        if !(self.installation == other.installation && self.most_recent == other.most_recent) {
            return false;
        }
        let mut index: usize = 0;
        while index < FLOW_STATS_INSTANCES
            invariant
                index <= FLOW_STATS_INSTANCES,
                forall|i: int|
                    0 <= i < index ==> self.snapshots[i] == other.snapshots[i]
                        && self.measurements[i] == other.measurements[i],
            decreases FLOW_STATS_INSTANCES - index,
        {
            if !(self.snapshots[index] == other.snapshots[index] && self.measurements[index]
                == other.measurements[index]) {
                return false;
            }
            index += 1;
        }
        proof {
            assert(self.snapshots =~= other.snapshots);
            assert(self.measurements =~= other.measurements);
        }
        true
    }
}

impl vstd::std_specs::cmp::PartialEqSpecImpl for WaterMeterStatsState {
    open spec fn obeys_eq_spec() -> bool {
        true
    }

    open spec fn eq_spec(&self, other: &Self) -> bool {
        *self == *other
    }
}

impl Default for WaterMeterStatsState {
    fn default() -> (state: Self)
        ensures
            state.is_initial(),
    {
        let zero = FlowSnapshot::new(Duration::from_secs(0), 0);
        WaterMeterStatsState {
            installation: zero,
            most_recent: zero,
            snapshots: [zero; 8],
            measurements: [None; 8],
        }
    }
}

impl WaterMeterStatsState {
    /// Everything at time zero with no edges, and no window completed yet.
    pub open spec fn is_initial(&self) -> bool {
        let zero = self.installation;
        &&& zero.spec_time().spec_as_secs() == 0
        &&& zero.spec_time().spec_subsec_nanos() == 0
        &&& zero.spec_edges_count() == 0
        &&& self.most_recent == zero
        &&& forall|i: int|
            0 <= i < FLOW_STATS_INSTANCES ==> #[trigger] self.snapshots[i] == zero
                && self.measurements[i] is None
    }

    /// Whether window `index` is complete at `now`.
    pub open spec fn window_due(&self, index: int, now: Duration) -> bool {
        aligned_due(
            self.snapshots[index].spec_time(),
            now,
            Duration::spec_from_secs(spec_window_secs(index)),
        )
    }

    /// Whether any window is complete at `now`.
    pub open spec fn any_window_due(&self, now: Duration) -> bool {
        exists|i: int| 0 <= i < FLOW_STATS_INSTANCES && #[trigger] self.window_due(i, now)
    }

    /// Whether `next` is what an update with `edges_count` at `now` makes of
    /// this state.
    ///
    /// The latest count moves to `now` and grows by `edges_count`. Each
    /// window that is complete at `now` records a measurement from its start
    /// to the latest count and begins anew there; the others stay as they
    /// are.
    pub open spec fn updates_to(&self, edges_count: u64, now: Duration, next: Self) -> bool {
        &&& next.installation == self.installation
        &&& next.most_recent.spec_time() == now
        &&& next.most_recent.spec_edges_count() == self.most_recent.spec_edges_count()
            + edges_count
        &&& forall|i: int|
            0 <= i < FLOW_STATS_INSTANCES ==> if #[trigger] self.window_due(i, now) {
                &&& next.snapshots[i] == next.most_recent
                &&& next.measurements[i] matches Some(measurement)
                &&& measurement.spec_start() == self.snapshots[i]
                &&& measurement.spec_end() == next.most_recent
            } else {
                &&& next.snapshots[i] == self.snapshots[i]
                &&& next.measurements[i] == self.measurements[i]
            }
    }

    /// Takes the update with `edges_count` at `now` into the state. Returns
    /// whether the latest count changed or a window was completed.
    pub fn update(&mut self, edges_count: u64, now: Duration) -> (updated: bool)
        requires
            old(self).most_recent.spec_edges_count() + edges_count <= u64::MAX,
        ensures
            old(self).updates_to(edges_count, now, *final(self)),
            updated == (final(self).most_recent != old(self).most_recent || old(
                self,
            ).any_window_due(now)),
    {
        let most_recent = FlowSnapshot::new(now, self.most_recent.edges_count + edges_count);
        let mut updated = self.most_recent != most_recent;
        if updated {
            self.most_recent = most_recent;
        }
        let mut index: usize = 0;
        while index < FLOW_STATS_INSTANCES
            invariant
                index <= FLOW_STATS_INSTANCES,
                self.installation == old(self).installation,
                self.most_recent == most_recent,
                most_recent.spec_time() == now,
                most_recent.spec_edges_count() == old(self).most_recent.spec_edges_count()
                    + edges_count,
                forall|i: int|
                    index <= i < FLOW_STATS_INSTANCES ==> self.snapshots[i] == old(
                        self,
                    ).snapshots[i] && self.measurements[i] == old(self).measurements[i],
                forall|i: int|
                    0 <= i < index ==> if #[trigger] old(self).window_due(i, now) {
                        &&& self.snapshots[i] == most_recent
                        &&& self.measurements[i] matches Some(measurement)
                        &&& measurement.spec_start() == old(self).snapshots[i]
                        &&& measurement.spec_end() == most_recent
                    } else {
                        &&& self.snapshots[i] == old(self).snapshots[i]
                        &&& self.measurements[i] == old(self).measurements[i]
                    },
                updated == (most_recent != old(self).most_recent || exists|i: int|
                    0 <= i < index && #[trigger] old(self).window_due(i, now)),
            decreases FLOW_STATS_INSTANCES - index,
        {
            let snapshot = self.snapshots[index];
            let due = snapshot.is_measurement_due(window_duration(index), now);
            assert(due == old(self).window_due(index as int, now));
            if due {
                self.snapshots[index] = most_recent;
                self.measurements[index] = Some(FlowMeasurement::new(snapshot, most_recent));
                updated = true;
            }
            index += 1;
        }
        updated
    }

    /// The state after the update with `edges_count` at `now`.
    pub fn updated(&self, edges_count: u64, now: Duration) -> (next: Self)
        requires
            self.most_recent.spec_edges_count() + edges_count <= u64::MAX,
        ensures
            self.updates_to(edges_count, now, next),
    {
        let mut next = *self;
        next.update(edges_count, now);
        next
    }
}

/// The edge count that goes into an update: that of the water meter state
/// which just arrived or, with none, the latest count of the statistics.
pub open spec fn spec_edges_figure(
    arrived: Option<WaterMeterState>,
    stats: WaterMeterStatsState,
) -> u64 {
    match arrived {
        Some(state) => state.edges_count,
        None => stats.most_recent.spec_edges_count(),
    }
}

/// The edge count that goes into an update.
#[verifier::when_used_as_spec(spec_edges_figure)]
pub fn edges_figure(arrived: Option<WaterMeterState>, stats: WaterMeterStatsState) -> (edges_count:
    u64)
    ensures
        edges_count == spec_edges_figure(arrived, stats),
{
    match arrived {
        Some(state) => state.edges_count,
        None => stats.most_recent.edges_count(),
    }
}

/// One pass of the statistics at `now`: on the water meter state that
/// `arrived` or, with none, on the update timer. Returns the new statistics
/// where they changed, to be forwarded.
pub fn process(
    state: &mut StateSnapshot<WaterMeterStatsState>,
    arrived: Option<WaterMeterState>,
    now: Duration,
) -> (forward: Option<WaterMeterStatsState>)
    requires
        old(state).value().most_recent.spec_edges_count() + spec_edges_figure(
            arrived,
            old(state).value(),
        ) <= u64::MAX,
    ensures
        old(state).value().updates_to(
            spec_edges_figure(arrived, old(state).value()),
            now,
            final(state).value(),
        ),
        forward == forwarded(old(state).value(), final(state).value()),
{
    let current = state.get();
    let next = current.updated(edges_figure(arrived, current), now);
    state.update(next)
}

/// The statistics task: its state and the slot through which water meter
/// states reach it.
#[derive(Debug)]
pub struct WaterMeterStats {
    state: StateSnapshot<WaterMeterStatsState>,
    wm_state: Mailbox<WaterMeterState>,
}

impl WaterMeterStats {
    /// The committed statistics.
    pub closed spec fn current(&self) -> WaterMeterStatsState {
        self.state.value()
    }

    /// The water meter state that waits to be taken in, if any.
    pub closed spec fn arrived(&self) -> Option<WaterMeterState> {
        self.wm_state.waiting()
    }

    /// Statistics in their first state with no water meter state waiting.
    pub fn new() -> (stats: Self)
        ensures
            stats.current().is_initial(),
            stats.arrived() is None,
    {
        WaterMeterStats {
            state: StateSnapshot::new(WaterMeterStatsState::default()),
            wm_state: Mailbox::new(),
        }
    }

    /// The cell that holds the statistics.
    pub fn state(&self) -> (cell: &StateSnapshot<WaterMeterStatsState>)
        ensures
            cell.value() == self.current(),
    {
        &self.state
    }

    /// Whether the latest count has room for what the next pass adds to it.
    pub fn has_room(&self) -> (room: bool)
        ensures
            room == (self.current().most_recent.spec_edges_count() + spec_edges_figure(
                self.arrived(),
                self.current(),
            ) <= u64::MAX),
    {
        let current = self.state.get();
        let figure = edges_figure(self.wm_state.peek(), current);
        figure <= u64::MAX - current.most_recent.edges_count()
    }

    /// Leaves `state` of the water meter for the next pass; it replaces one
    /// that still waits.
    pub fn wm_state_sink(&mut self, state: WaterMeterState)
        ensures
            final(self).arrived() == Some(state),
            final(self).current() == old(self).current(),
    {
        self.wm_state.send(state);
    }

    /// One pass at `now`: takes in the waiting water meter state or, with
    /// none, updates on the timer.
    pub fn process(&mut self, now: Duration) -> (forward: Option<WaterMeterStatsState>)
        requires
            old(self).current().most_recent.spec_edges_count() + spec_edges_figure(
                old(self).arrived(),
                old(self).current(),
            ) <= u64::MAX,
        ensures
            final(self).arrived() is None,
            old(self).current().updates_to(
                spec_edges_figure(old(self).arrived(), old(self).current()),
                now,
                final(self).current(),
            ),
            forward == forwarded(old(self).current(), final(self).current()),
    {
        let arrived = self.wm_state.try_recv();
        process(&mut self.state, arrived, now)
    }
}

/// A window of whole seconds is complete exactly when the clock has crossed
/// a multiple of its length since the window began: `now` lies in a later
/// period than `start`.
pub proof fn lemma_due_when_boundary_crossed(start: Duration, now: Duration, length: Duration)
    requires
        now.wf(),
        length.spec_as_secs() > 0,
        length.spec_subsec_nanos() == 0,
    ensures
        aligned_due(start, now, length) <==> now.spec_as_secs() / length.spec_as_secs()
            > start.spec_as_secs() / length.spec_as_secs(),
{
    let d = length.spec_as_secs() as int;
    let s = start.spec_as_secs() as int;
    let n = now.spec_as_secs() as int;
    let q = s / d;
    vstd::arithmetic::div_mod::lemma_fundamental_div_mod(n, d);
    assert(n >= q * d + d <==> n / d > q) by (nonlinear_arith)
        requires
            d > 0,
            n == d * (n / d) + n % d,
            0 <= n % d < d,
    ;
}

/// A window that was complete begins anew at the latest snapshot, not at the
/// boundary that the clock has crossed, and is no longer complete then.
pub proof fn lemma_window_restarts_at_latest(
    state: WaterMeterStatsState,
    edges_count: u64,
    now: Duration,
    next: WaterMeterStatsState,
    index: int,
)
    requires
        state.updates_to(edges_count, now, next),
        0 <= index < FLOW_STATS_INSTANCES,
        state.window_due(index, now),
        now.wf(),
    ensures
        next.snapshots[index].spec_time() == now,
        next.snapshots[index] == next.most_recent,
        !next.window_due(index, now),
{
    broadcast use crate::time::lemma_from_secs;
}

/// The aligned start of a window lies at or before its start and less than
/// one length before it.
pub proof fn lemma_aligned_start_brackets(start: Duration, length: Duration)
    requires
        length.spec_as_secs() > 0,
    ensures
        0 <= aligned_start_secs(start, length) <= start.spec_as_secs(),
        start.spec_as_secs() < aligned_start_secs(start, length) + length.spec_as_secs(),
        aligned_start_secs(start, length) % (length.spec_as_secs() as int) == 0,
{
    let a = start.spec_as_secs() as int;
    let b = length.spec_as_secs() as int;
    vstd::arithmetic::div_mod::lemma_fundamental_div_mod(a, b);
    vstd::arithmetic::div_mod::lemma_mod_multiples_basic(a / b, b);
}

} // verus!
