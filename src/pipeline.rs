use vstd::prelude::*;

verus! {

/// Room in the channel between the per-message tasks and the sink.
pub const SINK_CAPACITY: usize = 10000;

/// How long the sink may take to drain after the receive loop stops, in milliseconds.
pub const DRAIN_TIMEOUT_MS: u64 = 2000;

/// What the receive loop observed.
#[derive(Clone, Copy, Debug, PartialEq, Eq)]
pub enum LoopEvent {
    /// A message arrived on the inbound stream.
    Inbound,
    /// The shutdown signal changed; it holds the new value.
    ShutdownChanged(bool),
    /// The inbound stream ended.
    StreamEnded,
}

/// What the receive loop does next.
#[derive(Debug)]
pub enum LoopAction<H> {
    /// Start a task for the message and track it.
    Spawn,
    /// Do nothing.
    Ignore,
    /// Abort these tasks, then leave the loop.
    CancelAll(Vec<H>),
    /// Leave the loop.
    Finish,
}

/// What an action says, with the tasks to abort as a sequence.
pub enum ActionModel<H> {
    Spawn,
    Ignore,
    CancelAll(Seq<H>),
    Finish,
}

impl<H> View for LoopAction<H> {
    type V = ActionModel<H>;

    open spec fn view(&self) -> ActionModel<H> {
        match self {
            LoopAction::Spawn => ActionModel::Spawn,
            LoopAction::Ignore => ActionModel::Ignore,
            LoopAction::CancelAll(v) => ActionModel::CancelAll(v@),
            LoopAction::Finish => ActionModel::Finish,
        }
    }
}

/// The state of the receive loop, as a whole.
pub struct SupervisorModel<H> {
    pub shutdown: bool,
    pub running: bool,
    pub tasks: Seq<H>,
}

/// Supervises the receive loop: decides for each event whether to start a task,
/// tracks the tasks started, and cancels them all once shutdown is signalled.
/// The shutdown flag only ever goes from false to true.
pub struct Supervisor<H> {
    shutdown: bool,
    running: bool,
    tasks: Vec<H>,
}

impl<H> View for Supervisor<H> {
    type V = SupervisorModel<H>;

    closed spec fn view(&self) -> SupervisorModel<H> {
        SupervisorModel { shutdown: self.shutdown, running: self.running, tasks: self.tasks@ }
    }
}

/// The next state and the action for event `e` in state `s`.
pub open spec fn next<H>(s: SupervisorModel<H>, e: LoopEvent) -> (SupervisorModel<H>, ActionModel<H>) {
    if !s.running {
        (s, ActionModel::Ignore)
    } else {
        match e {
            LoopEvent::Inbound => (s, ActionModel::Spawn),
            LoopEvent::ShutdownChanged(v) => if v {
                (
                    SupervisorModel { shutdown: true, running: false, tasks: Seq::empty() },
                    ActionModel::CancelAll(s.tasks),
                )
            } else {
                (s, ActionModel::Ignore)
            },
            LoopEvent::StreamEnded => (
                SupervisorModel { shutdown: s.shutdown, running: false, tasks: s.tasks },
                ActionModel::Finish,
            ),
        }
    }
}

/// The state after the events `evs`, from state `s`.
pub open spec fn run<H>(s: SupervisorModel<H>, evs: Seq<LoopEvent>) -> SupervisorModel<H>
    decreases evs.len(),
{
    if evs.len() == 0 {
        s
    } else {
        next(run(s, evs.drop_last()), evs.last()).0
    }
}

/// How many tasks the events `evs` start, from state `s`.
pub open spec fn spawns<H>(s: SupervisorModel<H>, evs: Seq<LoopEvent>) -> nat
    decreases evs.len(),
{
    if evs.len() == 0 {
        0
    } else {
        spawns(s, evs.drop_last()) + if next(run(s, evs.drop_last()), evs.last()).1 is Spawn {
            1nat
        } else {
            0nat
        }
    }
}

/// The tasks of `tasks` whose flag in `finished` is false, in their order.
pub open spec fn unfinished<H>(tasks: Seq<H>, finished: Seq<bool>) -> Seq<H>
    decreases tasks.len(),
{
    if tasks.len() == 0 {
        Seq::empty()
    } else {
        let before = unfinished(tasks.drop_last(), finished.take(tasks.len() - 1));
        if finished[tasks.len() - 1] {
            before
        } else {
            before.push(tasks.last())
        }
    }
}

impl<H> Supervisor<H> {
    /// A running loop with no shutdown and no tasks.
    pub fn new() -> (r: Self)
        ensures
            r@.running,
            !r@.shutdown,
            r@.tasks.len() == 0,
    {
        Supervisor { shutdown: false, running: true, tasks: Vec::new() }
    }

    /// Whether the loop should still wait for events.
    pub fn is_running(&self) -> (r: bool)
        ensures
            r == self@.running,
    {
        self.running
    }

    /// Whether shutdown has been signalled.
    pub fn is_shutdown(&self) -> (r: bool)
        ensures
            r == self@.shutdown,
    {
        self.shutdown
    }

    /// The tasks tracked, oldest first.
    pub fn tasks(&self) -> (r: &Vec<H>)
        ensures
            r@ == self@.tasks,
    {
        &self.tasks
    }

    /// Takes in event `e` and says what to do.
    pub fn step(&mut self, e: LoopEvent) -> (r: LoopAction<H>)
        ensures
            (final(self)@, r@) == next(old(self)@, e),
    {
        if !self.running {
            return LoopAction::Ignore;
        }
        match e {
            LoopEvent::Inbound => LoopAction::Spawn,
            LoopEvent::ShutdownChanged(v) => {
                if v {
                    let mut taken: Vec<H> = Vec::new();
                    std::mem::swap(&mut taken, &mut self.tasks);
                    self.shutdown = true;
                    self.running = false;
                    assert(self.tasks@ =~= Seq::<H>::empty());
                    LoopAction::CancelAll(taken)
                } else {
                    LoopAction::Ignore
                }
            },
            LoopEvent::StreamEnded => {
                self.running = false;
                LoopAction::Finish
            },
        }
    }

    /// Tracks a task just started.
    pub fn track(&mut self, task: H)
        ensures
            final(self)@ == (SupervisorModel {
                shutdown: old(self)@.shutdown,
                running: old(self)@.running,
                tasks: old(self)@.tasks.push(task),
            }),
    {
        self.tasks.push(task);
    }

    /// Drops the tasks whose flag in `finished` is true; `finished` has one flag per
    /// tracked task, in the same order.
    pub fn prune(&mut self, finished: &Vec<bool>)
        requires
            finished@.len() == old(self)@.tasks.len(),
        ensures
            final(self)@ == (SupervisorModel {
                shutdown: old(self)@.shutdown,
                running: old(self)@.running,
                tasks: unfinished(old(self)@.tasks, finished@),
            }),
    {
        let ghost all = self.tasks@;
        let mut i: usize = 0;
        let mut j: usize = 0;
        while j < finished.len()
            invariant
                0 <= j <= finished@.len(),
                i <= j,
                finished@.len() == all.len(),
                i == unfinished(all.take(j as int), finished@.take(j as int)).len(),
                self.tasks@ == unfinished(all.take(j as int), finished@.take(j as int)) + all.skip(j as int),
                self.shutdown == old(self).shutdown,
                self.running == old(self).running,
            decreases finished@.len() - j,
        {
            let ghost before = unfinished(all.take(j as int), finished@.take(j as int));
            assert(all.take(j + 1).drop_last() =~= all.take(j as int));
            assert(finished@.take(j + 1).take(j as int) =~= finished@.take(j as int));
            assert(self.tasks@[i as int] == all[j as int]);
            if finished[j] {
                self.tasks.remove(i);
                assert(self.tasks@ =~= before + all.skip(j + 1));
            } else {
                assert(self.tasks@ =~= before.push(all[j as int]) + all.skip(j + 1));
                i = i + 1;
            }
            j = j + 1;
        }
        assert(all.take(j as int) =~= all);
        assert(finished@.take(j as int) =~= finished@);
        assert(self.tasks@ =~= unfinished(all, finished@));
    }
}

/// Once the loop has stopped, no event starts a task or changes the state.
pub proof fn lemma_stopped_is_final<H>(s: SupervisorModel<H>, evs: Seq<LoopEvent>)
    requires
        !s.running,
    ensures
        run(s, evs) == s,
        spawns(s, evs) == 0,
    decreases evs.len(),
{
    if evs.len() > 0 {
        lemma_stopped_is_final(s, evs.drop_last());
    }
}

/// A shutdown signal seen by a running loop cancels every tracked task and stops the
/// loop; after it no event, however many messages are still buffered, starts a task,
/// and the flag stays set.
pub proof fn lemma_shutdown_drain<H>(s: SupervisorModel<H>, evs: Seq<LoopEvent>)
    requires
        s.running,
    ensures
        next(s, LoopEvent::ShutdownChanged(true)).1 == ActionModel::CancelAll(s.tasks),
        next(s, LoopEvent::ShutdownChanged(true)).0.shutdown,
        next(s, LoopEvent::ShutdownChanged(true)).0.tasks.len() == 0,
        spawns(next(s, LoopEvent::ShutdownChanged(true)).0, evs) == 0,
        run(next(s, LoopEvent::ShutdownChanged(true)).0, evs).shutdown,
{
    lemma_stopped_is_final(next(s, LoopEvent::ShutdownChanged(true)).0, evs);
}

/// What the sink observed.
#[derive(Debug)]
pub enum SinkEvent<T> {
    /// An item arrived on the channel.
    Item(T),
    /// The shutdown signal changed; it holds the new value.
    ShutdownChanged(bool),
    /// Every sender is gone and the channel is empty.
    Closed,
}

/// What the sink does next.
#[derive(Debug, PartialEq, Eq)]
pub enum SinkAction<T> {
    /// Emit this item.
    Emit(T),
    /// Wait for the next event.
    Wait,
    /// Stop the sink.
    Stop,
}

/// The sink's decision: emit each item in the order it arrives, and stop only when
/// the channel closes. A shutdown signal does not stop it: it goes on draining what is
/// queued, and the receive loop bounds how long it is waited for.
pub fn sink_step<T>(e: SinkEvent<T>) -> (r: SinkAction<T>)
    ensures
        e matches SinkEvent::Item(t) ==> r == SinkAction::Emit(t),
        e is ShutdownChanged ==> r == SinkAction::<T>::Wait,
        e is Closed ==> r == SinkAction::<T>::Stop,
{
    match e {
        SinkEvent::Item(t) => SinkAction::Emit(t),
        SinkEvent::ShutdownChanged(_) => SinkAction::Wait,
        SinkEvent::Closed => SinkAction::Stop,
    }
}

/// How long to wait for the sink once the receive loop has stopped: not at all if it
/// has already finished, else at most the drain timeout.
pub fn drain_wait_ms(sink_finished: bool) -> (r: Option<u64>)
    ensures
        r == if sink_finished { None } else { Some(DRAIN_TIMEOUT_MS) },
        r matches Some(ms) ==> ms <= DRAIN_TIMEOUT_MS,
{
    if sink_finished {
        None
    } else {
        Some(DRAIN_TIMEOUT_MS)
    }
}

} // verus!
