//! The application controller: what `start` and `stop` decide. The
//! controller owns the bus state, the stop flag and the startup barrier;
//! the tasks themselves are run by its caller, who reports what happened.

use vstd::prelude::*;
use crate::bus::Bus;
use crate::component::{
    Arrival, BarrierModel, BarrierState, Next, StartupBarrier, StopFlag, after_lookup, on_lookup,
};
use crate::config::{AppConfig, ConfigModel, ConfigStore, TypeKey};
use crate::error::MicrobusError;

verus! {

/// What `start` asks of its caller.
#[derive(Clone, Copy, Debug, PartialEq, Eq, Structural)]
pub enum StartStep {
    /// The application runs already: nothing is to be done.
    AlreadyStarted,
    /// Spawn one task per factory, then wait for the startup barrier.
    Launch,
}

/// What `stop` asks of its caller: whether to wake the waiters of the
/// stop flag, and how many tasks to join.
#[derive(Clone, Copy, Debug, PartialEq, Eq, Structural)]
pub struct StopPlan {
    pub wake: bool,
    pub join: usize,
}

/// The state of the controller.
pub struct AppModel<V> {
    /// Whether the application runs.
    pub started: bool,
    /// The number of component tasks that are not joined yet.
    pub tasks: nat,
    /// Whether the bus is sealed.
    pub sealed: bool,
    /// The capacity of the channels of the bus.
    pub capacity: usize,
    /// Whether the stop signal was given.
    pub stopping: bool,
    /// The startup barrier of the last start.
    pub barrier: Option<BarrierModel>,
    /// The configuration values that the components read at init.
    pub config: ConfigModel<V>,
}

impl<V> AppModel<V> {
    /// A controller that has not started.
    pub open spec fn fresh(capacity: usize) -> AppModel<V> {
        AppModel {
            started: false,
            tasks: 0,
            sealed: false,
            capacity,
            stopping: false,
            barrier: None,
            config: ConfigModel::empty(),
        }
    }

    /// The state after a configuration value was added.
    pub open spec fn add_config(self, key: TypeKey, value: V) -> AppModel<V> {
        AppModel { config: self.config.put(key, value), ..self }
    }

    /// What `start` asks for.
    pub open spec fn start_step(self) -> StartStep {
        if self.started {
            StartStep::AlreadyStarted
        } else {
            StartStep::Launch
        }
    }

    /// The state after `start` with `factories` factories: a running
    /// application is left alone; otherwise the configuration is frozen,
    /// a fresh barrier is set up and one task per factory is counted.
    pub open spec fn start(self, factories: nat) -> AppModel<V> {
        if self.started {
            self
        } else {
            AppModel {
                tasks: factories,
                barrier: Some(BarrierModel::fresh(factories)),
                config: self.config.freeze(),
                ..self
            }
        }
    }

    /// The state after a component could not be built or failed in init.
    pub open spec fn component_failed(self) -> AppModel<V> {
        match self.barrier {
            Some(b) => AppModel { barrier: Some(b.mark_failed()), ..self },
            None => self,
        }
    }

    /// The state after a component has arrived at the barrier.
    pub open spec fn component_arrived(self) -> AppModel<V> {
        match self.barrier {
            Some(b) => AppModel { barrier: Some(b.arrive()), ..self },
            None => self,
        }
    }

    /// The state after a component has looked up the configuration value
    /// that an init hook asks for: without the value the start has
    /// failed.
    pub open spec fn config_required(self, key: TypeKey) -> AppModel<V> {
        if self.config.get(key) is Some {
            self
        } else {
            self.component_failed()
        }
    }

    /// Whether the barrier is open.
    pub open spec fn startup_ready(self) -> bool {
        self.barrier matches Some(b) && b.ready()
    }

    /// Whether the start has failed.
    pub open spec fn start_failed(self) -> bool {
        self.barrier matches Some(b) && b.failed
    }

    /// The state after `stop`: the stop signal is given, no task is left,
    /// the application does not run.
    pub open spec fn stop(self) -> AppModel<V> {
        AppModel { stopping: true, tasks: 0, started: false, ..self }
    }

    /// The state after the start has ended: stopped after a failure, else
    /// sealed and running.
    pub open spec fn finish_start(self) -> AppModel<V> {
        if self.start_failed() {
            self.stop()
        } else {
            AppModel { sealed: true, started: true, ..self }
        }
    }
}

/// The application controller.
pub struct App<V> {
    cfg: AppConfig,
    bus: Bus,
    tasks: usize,
    started: bool,
    stop_flag: StopFlag,
    startup_barrier: Option<StartupBarrier>,
    config: ConfigStore<V>,
}

impl<V> View for App<V> {
    type V = AppModel<V>;

    closed spec fn view(&self) -> AppModel<V> {
        AppModel {
            started: self.started,
            tasks: self.tasks as nat,
            sealed: self.bus.sealed(),
            capacity: self.bus.capacity(),
            stopping: self.stop_flag.raised(),
            barrier: match self.startup_barrier {
                Some(b) => Some(b@),
                None => None,
            },
            config: self.config@,
        }
    }
}

impl<V> App<V> {
    /// A controller that has not started: an open bus of the configured
    /// capacity, an unset stop flag, no task.
    pub fn new(cfg: AppConfig) -> (app: Self)
        ensures
            app@ == AppModel::<V>::fresh(cfg.queue_capacity),
    {
        let bus = Bus::new(cfg.queue_capacity);
        App {
            cfg,
            bus,
            tasks: 0,
            started: false,
            stop_flag: StopFlag::new(),
            startup_barrier: None,
            config: ConfigStore::new(),
        }
    }

    /// Adds the configuration value of a type; a value that was there is
    /// replaced, which the result tells and which is worth a warning.
    /// Values are added before the first start only.
    pub fn add_config(&mut self, key: TypeKey, value: V) -> (replaced: bool)
        requires
            !old(self)@.config.frozen,
        ensures
            final(self)@ == old(self)@.add_config(key, value),
            replaced == old(self)@.config.values.contains_key(key),
    {
        self.config.put(key, value)
    }

    /// The configuration values, for the components to read at init.
    pub fn config(&self) -> (store: &ConfigStore<V>)
        ensures
            store@ == self@.config,
    {
        &self.config
    }

    /// Whether the application runs.
    pub fn is_started(&self) -> (started: bool)
        ensures
            started == self@.started,
    {
        self.started
    }

    /// The bus state, for those who subscribe and publish.
    pub fn bus_handle(&self) -> (bus: &Bus)
        ensures
            bus.sealed() == self@.sealed,
            bus.capacity() == self@.capacity,
    {
        &self.bus
    }

    /// Whether the stop signal was given.
    pub fn is_stopping(&self) -> (set: bool)
        ensures
            set == self@.stopping,
    {
        self.stop_flag.is_set()
    }

    /// Begins a start with `factories` component factories. A running
    /// application is left as it is. Otherwise a barrier for that many
    /// components is set up and as many tasks are to be spawned.
    pub fn start(&mut self, factories: usize) -> (step: StartStep)
        ensures
            step == old(self)@.start_step(),
            final(self)@ == old(self)@.start(factories as nat),
    {
        if self.started {
            return StartStep::AlreadyStarted;
        }
        self.config.freeze();
        self.startup_barrier = Some(StartupBarrier::new(factories));
        self.tasks = factories;
        StartStep::Launch
    }

    /// A component task reports that its component could not be built or
    /// failed in init: the start has failed. The result tells whether the waiters of the
    /// barrier are to be woken. Without a start nothing happens.
    pub fn component_failed(&mut self) -> (wake: bool)
        ensures
            final(self)@ == old(self)@.component_failed(),
            wake == (old(self)@.barrier matches Some(b) && !b.ready()),
    {
        match self.startup_barrier.take() {
            Some(mut barrier) => {
                let wake = barrier.mark_failed();
                self.startup_barrier = Some(barrier);
                wake
            },
            None => false,
        }
    }

    /// A component task looks up the configuration value that an init
    /// hook asks for. Where the store holds one, the task goes on and
    /// reads it from `config`. Where it holds none, the start has failed
    /// and the task aborts; the second result tells whether the waiters
    /// of the barrier are to be woken.
    pub fn config_required(&mut self, key: TypeKey) -> (out: (Next, bool))
        ensures
            final(self)@ == old(self)@.config_required(key),
            out.0 == after_lookup(old(self)@.config.get(key) is Some),
            out.1 == (old(self)@.config.get(key) is None && (old(self)@.barrier matches Some(b)
                && !b.ready())),
    {
        let found = self.config.get(key).is_some();
        let next = on_lookup(found);
        match next {
            Next::Abort => {
                let wake = self.component_failed();
                (next, wake)
            },
            _ => (next, false),
        }
    }

    /// A component task reports that its component has finished init and
    /// has subscribed its handlers. Without a start the component goes
    /// on.
    pub fn component_arrived(&mut self) -> (arrival: Arrival)
        ensures
            final(self)@ == old(self)@.component_arrived(),
            arrival == (match old(self)@.barrier {
                Some(b) => b.arrival(),
                None => Arrival::Proceed,
            }),
    {
        match self.startup_barrier.take() {
            Some(mut barrier) => {
                let arrival = barrier.arrive();
                self.startup_barrier = Some(barrier);
                arrival
            },
            None => Arrival::Proceed,
        }
    }

    /// Whether the startup barrier of the running start is open.
    pub fn startup_ready(&self) -> (ready: bool)
        ensures
            ready == self@.startup_ready(),
    {
        match &self.startup_barrier {
            Some(b) => b.is_ready(),
            None => false,
        }
    }

    /// Whether the running start has failed.
    pub fn startup_failed(&self) -> (failed: bool)
        ensures
            failed == self@.start_failed(),
    {
        match &self.startup_barrier {
            Some(b) => b.is_failed(),
            None => false,
        }
    }

    /// Ends a start. The barrier must be open: every component has
    /// arrived, or one has failed. After a failed start the application
    /// is stopped and the error is returned; the bus stays open.
    /// Otherwise the bus is sealed and the application runs, and the
    /// caller completes the sealing with `Bus::seal_index` on every index.
    /// The plan tells what the stop, if there was one, asks of the caller.
    pub fn finish_start(&mut self) -> (out: (Result<(), MicrobusError>, StopPlan))
        requires
            old(self)@.startup_ready(),
        ensures
            final(self)@ == old(self)@.finish_start(),
            old(self)@.start_failed() ==> {
                &&& out.0 matches Err(MicrobusError::Other(msg)) && msg@
                    == "app start aborted: init/build failed"@
                &&& out.1.wake == !old(self)@.stopping
                &&& out.1.join == old(self)@.tasks
            },
            !old(self)@.start_failed() ==> out.0 is Ok && out.1 == (StopPlan {
                wake: false,
                join: 0,
            }),
    {
        if self.startup_failed() {
            let plan = self.stop();
            (Err(MicrobusError::Other("app start aborted: init/build failed")), plan)
        } else {
            self.bus.seal();
            self.started = true;
            (Ok(()), StopPlan { wake: false, join: 0 })
        }
    }

    /// Stops the application: sets the stop flag and hands every task to
    /// the caller for joining. The plan tells whether the waiters of the
    /// flag are to be woken and how many tasks to join.
    pub fn stop(&mut self) -> (plan: StopPlan)
        ensures
            final(self)@ == old(self)@.stop(),
            plan.wake == !old(self)@.stopping,
            plan.join == old(self)@.tasks,
    {
        let wake = self.stop_flag.trigger();
        let join = self.tasks;
        self.tasks = 0;
        self.started = false;
        StopPlan { wake, join }
    }
}

/// Stopping twice is safe: the second stop changes nothing, wakes nobody
/// and has no task to join.
pub proof fn lemma_stop_is_idempotent<V>(m: AppModel<V>)
    ensures
        m.stop().stop() == m.stop(),
        m.stop().stopping,
        m.stop().tasks == 0,
        !m.stop().started,
{
}

/// Starting a running application changes nothing.
pub proof fn lemma_start_twice_is_noop<V>(m: AppModel<V>, factories: nat)
    requires
        m.started,
    ensures
        m.start(factories) == m,
        m.start_step() == StartStep::AlreadyStarted,
{
}

/// A start ends in one of two ways: after a failure the application does
/// not run, the stop signal is given and the bus is as it was; else the
/// application runs on a sealed bus, and every component of the start
/// had arrived at the barrier, and so had made its subscriptions, before
/// the bus was sealed.
pub proof fn lemma_start_is_atomic<V>(m: AppModel<V>)
    requires
        m.startup_ready(),
    ensures
        m.start_failed() ==> !m.finish_start().started && m.finish_start().stopping
            && m.finish_start().sealed == m.sealed && m.finish_start().tasks == 0,
        !m.start_failed() ==> m.finish_start().started && m.finish_start().sealed
            && m.finish_start().tasks == m.tasks && m.finish_start().stopping == m.stopping,
        !m.start_failed() ==> (m.barrier matches Some(b) && b.state() == BarrierState::Released
            && b.arrived >= b.total),
{
}

/// A missing configuration value aborts the start: once a component has
/// asked for a value that the store does not hold while the barrier
/// waits, the start has failed, and ending it returns the error and
/// leaves the application stopped where it stands.
pub proof fn lemma_missing_config_aborts<V>(m: AppModel<V>, key: TypeKey)
    requires
        m.config.get(key) is None,
        m.barrier matches Some(b) && !b.ready(),
    ensures
        after_lookup(m.config.get(key) is Some) == Next::Abort,
        m.config_required(key).start_failed(),
        m.config_required(key).startup_ready(),
        !m.config_required(key).finish_start().started,
        m.config_required(key).finish_start().sealed == m.sealed,
        m.config_required(key).component_arrived().start_failed(),
{
}

/// The configuration is fixed by the first start: a start freezes it,
/// and no step of the controller changes a frozen configuration, so a
/// component reads the same value of a type for the whole run.
pub proof fn lemma_config_is_fixed<V>(m: AppModel<V>, factories: nat)
    ensures
        !m.started ==> m.start(factories).config.frozen,
        m.start(factories).config.values == m.config.values,
        m.config.frozen ==> {
            &&& m.start(factories).config == m.config
            &&& m.component_failed().config == m.config
            &&& m.component_arrived().config == m.config
            &&& forall|key: TypeKey| m.config_required(key).config == m.config
            &&& m.finish_start().config == m.config
            &&& m.stop().config == m.config
        },
{
}

} // verus!
