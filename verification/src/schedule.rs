//! Where each task runs: the three domains, the order of the start-up, and
//! the bounded registries that hold the tasks of each domain.

use vstd::prelude::*;
use crate::error::Error;

verus! {

/// The number of tasks that one domain can hold.
pub const DOMAIN_CAPACITY: usize = 64;

/// A cooperative scheduler and the thread it runs on.
#[derive(Clone, Copy, Debug, PartialEq, Eq, Structural)]
pub enum Domain {
    /// Runs on the calling thread. Tasks that own hardware which must not
    /// cross threads live here.
    Local,
    /// Runs on a thread of its own: sampling, statistics and the screen.
    Background,
    /// Runs on a thread of its own: everything that talks to the network.
    Network,
}

/// A task of the controller.
#[derive(Clone, Copy, Debug, PartialEq, Eq, Structural)]
pub enum Task {
    /// Takes valve commands.
    Valve,
    /// Drives the valve's output lines through a timed spin.
    ValveSpin,
    /// Polls the pulse counter.
    WaterMeter,
    /// Keeps the flow statistics.
    WaterMeterStats,
    /// Samples the battery.
    Battery,
    /// Watches the first button.
    Button1,
    /// Watches the second button.
    Button2,
    /// Watches the third button.
    Button3,
    /// Reacts to a leak while the device is awake.
    Emergency,
    /// Decides when the device may sleep.
    Keepalive,
    /// Draws the screen.
    ScreenDraw,
    /// Takes the screen's input.
    Screen,
    /// Publishes state to the broker.
    MqttSend,
    /// Takes commands from the broker.
    MqttReceive,
    /// Sends state to the web clients.
    WebSend,
    /// Takes requests from the web clients.
    WebReceive,
    /// Watches the wireless link.
    Wifi,
}

/// The domain in which `task` runs.
///
/// The valve, the water meter and the buttons whose interrupts are wired on
/// the calling thread own hardware that stays there. Whatever talks to the
/// network runs apart from whatever samples and draws, so that a stall of
/// the one does not starve the other.
pub open spec fn spec_domain_of(task: Task) -> Domain {
    match task {
        Task::Valve | Task::ValveSpin | Task::WaterMeter | Task::Button1 | Task::Button3 => {
            Domain::Local
        },
        Task::WaterMeterStats
        | Task::Battery
        | Task::Button2
        | Task::Emergency
        | Task::Keepalive
        | Task::ScreenDraw
        | Task::Screen => Domain::Background,
        Task::MqttSend | Task::MqttReceive | Task::WebSend | Task::WebReceive | Task::Wifi => {
            Domain::Network
        },
    }
}

/// The domain in which `task` runs.
#[verifier::when_used_as_spec(spec_domain_of)]
pub fn domain_of(task: Task) -> (domain: Domain)
    ensures
        domain == spec_domain_of(task),
{
    match task {
        Task::Valve | Task::ValveSpin | Task::WaterMeter | Task::Button1 | Task::Button3 => {
            Domain::Local
        },
        Task::WaterMeterStats
        | Task::Battery
        | Task::Button2
        | Task::Emergency
        | Task::Keepalive
        | Task::ScreenDraw
        | Task::Screen => Domain::Background,
        Task::MqttSend | Task::MqttReceive | Task::WebSend | Task::WebReceive | Task::Wifi => {
            Domain::Network
        },
    }
}

/// Those of `tasks` that run in `domain`, in their order.
pub open spec fn assigned(tasks: Seq<Task>, domain: Domain) -> Seq<Task>
    decreases tasks.len(),
{
    if tasks.len() == 0 {
        Seq::empty()
    } else if spec_domain_of(tasks.last()) == domain {
        assigned(tasks.drop_last(), domain).push(tasks.last())
    } else {
        assigned(tasks.drop_last(), domain)
    }
}

/// The tasks of the controller in the order in which they are started.
pub open spec fn startup_order() -> Seq<Task> {
    seq![
        Task::Valve,
        Task::ValveSpin,
        Task::WaterMeter,
        Task::WaterMeterStats,
        Task::Battery,
        Task::Button1,
        Task::Button2,
        Task::Button3,
        Task::Emergency,
        Task::Keepalive,
        Task::ScreenDraw,
        Task::Screen,
        Task::MqttSend,
        Task::MqttReceive,
        Task::WebSend,
        Task::WebReceive,
        Task::Wifi,
    ]
}

/// The tasks of the controller in the order in which they are started.
pub fn startup_tasks() -> (tasks: [Task; 17])
    ensures
        tasks@ == startup_order(),
{
    [
        Task::Valve,
        Task::ValveSpin,
        Task::WaterMeter,
        Task::WaterMeterStats,
        Task::Battery,
        Task::Button1,
        Task::Button2,
        Task::Button3,
        Task::Emergency,
        Task::Keepalive,
        Task::ScreenDraw,
        Task::Screen,
        Task::MqttSend,
        Task::MqttReceive,
        Task::WebSend,
        Task::WebReceive,
        Task::Wifi,
    ]
}

/// `heapless::Vec`, a vector of fixed capacity, taken as it is: what it
/// holds is known only through [`held_tasks`].
#[verifier::external_type_specification]
#[verifier::external_body]
#[verifier::reject_recursive_types(T)]
pub struct ExHeaplessVec<T, const N: usize>(heapless::Vec<T, N>);

/// The tasks that a bounded vector holds, oldest first.
pub uninterp spec fn held_tasks(tasks: heapless::Vec<Task, 64>) -> Seq<Task>;

/// `heapless::Vec::new`: a vector that holds nothing.
#[verifier::external_body]
fn bounded_new() -> (tasks: heapless::Vec<Task, 64>)
    ensures
        held_tasks(tasks) == Seq::<Task>::empty(),
{
    heapless::Vec::new()
}

/// `heapless::Vec::push`: below the capacity of 64 the item is appended; at
/// capacity the vector is left as it was and the item comes back. It does
/// not panic either way.
#[verifier::external_body]
fn bounded_push(tasks: &mut heapless::Vec<Task, 64>, task: Task) -> (rejected: Option<Task>)
    ensures
        rejected is None <==> held_tasks(*old(tasks)).len() < 64,
        rejected is None ==> held_tasks(*final(tasks)) == held_tasks(*old(tasks)).push(task),
        rejected is Some ==> rejected == Some(task) && held_tasks(*final(tasks)) == held_tasks(
            *old(tasks),
        ),
    no_unwind
{
    tasks.push(task).err()
}

/// `heapless::Vec::as_slice`: the items held, oldest first.
#[verifier::external_body]
fn bounded_as_slice(tasks: &heapless::Vec<Task, 64>) -> (items: &[Task])
    ensures
        items@ == held_tasks(*tasks),
{
    tasks.as_slice()
}

/// The tasks of one domain, in the order in which they were registered. It
/// holds no more than [`DOMAIN_CAPACITY`] of them.
pub struct TaskRegistry {
    tasks: heapless::Vec<Task, 64>,
}

impl View for TaskRegistry {
    type V = Seq<Task>;

    closed spec fn view(&self) -> Seq<Task> {
        held_tasks(self.tasks)
    }
}

impl TaskRegistry {
    /// The registry never holds more than its capacity.
    #[verifier::type_invariant]
    spec fn within_capacity(self) -> bool {
        held_tasks(self.tasks).len() <= DOMAIN_CAPACITY
    }

    /// A registry without tasks.
    pub fn new() -> (registry: Self)
        ensures
            registry@ == Seq::<Task>::empty(),
    {
        TaskRegistry { tasks: bounded_new() }
    }

    /// Adds `task` behind the tasks registered so far. A full registry stays
    /// as it is and the capacity error is returned.
    pub fn register(&mut self, task: Task) -> (outcome: Result<(), Error>)
        ensures
            outcome is Ok <==> old(self)@.len() < DOMAIN_CAPACITY,
            outcome is Ok ==> final(self)@ == old(self)@.push(task),
            outcome is Err ==> outcome == Err::<(), Error>(Error::CapacityExceeded) && final(self)@
                == old(self)@,
    {
        proof {
            use_type_invariant(&*self);
        }
        match bounded_push(&mut self.tasks, task) {
            None => Ok(()),
            Some(_) => Err(Error::CapacityExceeded),
        }
    }

    /// The number of tasks registered.
    pub fn len(&self) -> (count: usize)
        ensures
            count == self@.len(),
            count <= DOMAIN_CAPACITY,
    {
        proof {
            use_type_invariant(self);
        }
        bounded_as_slice(&self.tasks).len()
    }

    /// Whether no task is registered.
    pub fn is_empty(&self) -> (empty: bool)
        ensures
            empty == (self@.len() == 0),
    {
        bounded_as_slice(&self.tasks).len() == 0
    }

    /// The task registered at `index`, counting from zero.
    pub fn get(&self, index: usize) -> (task: Option<Task>)
        ensures
            task == if index < self@.len() {
                Some(self@[index as int])
            } else {
                None
            },
    {
        let items = bounded_as_slice(&self.tasks);
        if index < items.len() {
            Some(items[index])
        } else {
            None
        }
    }

    /// The tasks registered, oldest first.
    pub fn tasks(&self) -> (tasks: Vec<Task>)
        ensures
            tasks@ == self@,
    {
        let items = bounded_as_slice(&self.tasks);
        let mut tasks: Vec<Task> = Vec::new();
        let mut index: usize = 0;
        while index < items.len()
            invariant
                index <= items.len(),
                items@ == self@,
                tasks@ == self@.take(index as int),
            decreases items.len() - index,
        {
            tasks.push(items[index]);
            index += 1;
        }
        tasks
    }
}

/// The tasks of all three domains.
pub struct Schedule {
    local: TaskRegistry,
    background: TaskRegistry,
    network: TaskRegistry,
}

impl Schedule {
    /// The tasks registered for `domain`, oldest first.
    pub closed spec fn tasks_of(&self, domain: Domain) -> Seq<Task> {
        match domain {
            Domain::Local => self.local@,
            Domain::Background => self.background@,
            Domain::Network => self.network@,
        }
    }

    /// Whether the schedule holds `before` and behind it, in each domain,
    /// those of `added` that run there.
    pub open spec fn extends(&self, before: Schedule, added: Seq<Task>) -> bool {
        forall|domain: Domain| #[trigger]
            self.tasks_of(domain) == before.tasks_of(domain) + assigned(added, domain)
    }

    /// Whether `added` fit into the schedule, domain by domain.
    pub open spec fn has_room_for(&self, added: Seq<Task>) -> bool {
        forall|domain: Domain|
            self.tasks_of(domain).len() + (#[trigger] assigned(added, domain)).len()
                <= DOMAIN_CAPACITY
    }

    /// A schedule without tasks.
    pub fn new() -> (schedule: Self)
        ensures
            forall|domain: Domain| #[trigger] schedule.tasks_of(domain) == Seq::<Task>::empty(),
    {
        Schedule {
            local: TaskRegistry::new(),
            background: TaskRegistry::new(),
            network: TaskRegistry::new(),
        }
    }

    /// The registry of `domain`.
    pub fn registry(&self, domain: Domain) -> (registry: &TaskRegistry)
        ensures
            registry@ == self.tasks_of(domain),
    {
        match domain {
            Domain::Local => &self.local,
            Domain::Background => &self.background,
            Domain::Network => &self.network,
        }
    }

    /// Registers `task` in its domain. Where that domain is full, nothing
    /// changes and the capacity error is returned.
    pub fn spawn(&mut self, task: Task) -> (outcome: Result<(), Error>)
        ensures
            outcome is Ok <==> old(self).tasks_of(spec_domain_of(task)).len() < DOMAIN_CAPACITY,
            outcome is Ok ==> final(self).tasks_of(spec_domain_of(task)) == old(self).tasks_of(
                spec_domain_of(task),
            ).push(task),
            outcome is Err ==> {
                &&& outcome == Err::<(), Error>(Error::CapacityExceeded)
                &&& final(self).tasks_of(spec_domain_of(task)) == old(self).tasks_of(
                    spec_domain_of(task),
                )
            },
            forall|domain: Domain|
                domain != spec_domain_of(task) ==> #[trigger] final(self).tasks_of(domain)
                    == old(self).tasks_of(domain),
    {
        match domain_of(task) {
            Domain::Local => self.local.register(task),
            Domain::Background => self.background.register(task),
            Domain::Network => self.network.register(task),
        }
    }

    /// Registers `tasks` in order, each in its domain, and stops at the
    /// first that finds its domain full: the tasks before it stay
    /// registered, and the capacity error is returned.
    pub fn spawn_all(&mut self, tasks: &[Task]) -> (outcome: Result<(), Error>)
        ensures
            outcome is Ok ==> final(self).extends(*old(self), tasks@),
            outcome is Err ==> outcome == Err::<(), Error>(Error::CapacityExceeded),
            outcome is Err ==> exists|done: int|
                {
                    &&& 0 <= done < tasks@.len()
                    &&& #[trigger] final(self).extends(*old(self), tasks@.take(done))
                    &&& final(self).tasks_of(spec_domain_of(tasks@[done])).len() >= DOMAIN_CAPACITY
                },
            outcome is Ok <==> old(self).has_room_for(tasks@),
    {
        let mut index: usize = 0;
        while index < tasks.len()
            invariant
                index <= tasks.len(),
                self.extends(*old(self), tasks@.take(index as int)),
            decreases tasks.len() - index,
        {
            let task = tasks[index];
            proof {
                lemma_assigned_step(tasks@, index as int);
                lemma_assigned_prefix(tasks@, index as int + 1, spec_domain_of(task));
            }
            match self.spawn(task) {
                Ok(()) => {},
                Err(failure) => {
                    assert(self.extends(*old(self), tasks@.take(index as int)));
                    return Err(failure);
                },
            }
            index += 1;
        }
        proof {
            use_type_invariant(&self.local);
            use_type_invariant(&self.background);
            use_type_invariant(&self.network);
            assert(tasks@.take(index as int) =~= tasks@);
            assert forall|domain: Domain|
                old(self).tasks_of(domain).len() + (#[trigger] assigned(tasks@, domain)).len()
                    <= DOMAIN_CAPACITY by {
                assert(self.tasks_of(domain).len() <= DOMAIN_CAPACITY);
            }
        }
        Ok(())
    }
}

/// What one more task adds to those assigned to a domain: itself where it
/// runs there, nothing elsewhere.
pub proof fn lemma_assigned_step(tasks: Seq<Task>, done: int)
    requires
        0 <= done < tasks.len(),
    ensures
        forall|domain: Domain| #[trigger]
            assigned(tasks.take(done + 1), domain) == if spec_domain_of(tasks[done]) == domain {
                assigned(tasks.take(done), domain).push(tasks[done])
            } else {
                assigned(tasks.take(done), domain)
            },
{
    assert(tasks.take(done + 1).drop_last() =~= tasks.take(done));
}

/// Of the first tasks of a list no more run in a domain than of the whole list.
pub proof fn lemma_assigned_prefix(tasks: Seq<Task>, done: int, domain: Domain)
    requires
        0 <= done <= tasks.len(),
    ensures
        assigned(tasks.take(done), domain).len() <= assigned(tasks, domain).len(),
    decreases tasks.len() - done,
{
    if done == tasks.len() {
        assert(tasks.take(done) =~= tasks);
    } else {
        lemma_assigned_step(tasks, done);
        lemma_assigned_prefix(tasks, done + 1, domain);
    }
}

/// Every task runs in exactly one domain: the tasks assigned to the three
/// domains are as many as the tasks.
pub proof fn lemma_assigned_partition(tasks: Seq<Task>)
    ensures
        assigned(tasks, Domain::Local).len() + assigned(tasks, Domain::Background).len()
            + assigned(tasks, Domain::Network).len() == tasks.len(),
        forall|domain: Domain, i: int|
            0 <= i < assigned(tasks, domain).len() ==> spec_domain_of(
                #[trigger] assigned(tasks, domain)[i],
            ) == domain,
    decreases tasks.len(),
{
    if tasks.len() > 0 {
        lemma_assigned_partition(tasks.drop_last());
    }
}

/// The tasks of the start-up fit into their domains.
pub proof fn lemma_startup_fits()
    ensures
        forall|domain: Domain|
            (#[trigger] assigned(startup_order(), domain)).len() <= 17 <= DOMAIN_CAPACITY,
{
    lemma_assigned_partition(startup_order());
}

} // verus!
