//! What every component task shares and decides: the stop flag, the
//! startup barrier, and the steps of the workers.

use vstd::prelude::*;
use crate::bus::Subscription;
use crate::emit_ret::{Effect, Failure, Outcome, RetPlan, dispatch, effect_of, fits, ret_plan};
use crate::analyze::RetCase;

verus! {

/// The shutdown signal: unset at first, set for good by the first
/// trigger.
pub struct StopFlag {
    set: bool,
}

impl StopFlag {
    /// Whether the flag is set.
    pub closed spec fn raised(&self) -> bool {
        self.set
    }

    /// An unset flag.
    pub fn new() -> (flag: Self)
        ensures
            !flag.raised(),
    {
        StopFlag { set: false }
    }

    /// Sets the flag. The result tells whether the waiters are to be
    /// woken: only the trigger that set the flag wakes them.
    pub fn trigger(&mut self) -> (wake: bool)
        ensures
            final(self).raised(),
            wake == !old(self).raised(),
    {
        let wake = !self.set;
        self.set = true;
        wake
    }

    /// Whether the flag is set; a waiter returns at once when it is.
    pub fn is_set(&self) -> (set: bool)
        ensures
            set == self.raised(),
    {
        self.set
    }
}

/// The state of the startup barrier.
pub enum BarrierState {
    /// Not all components have arrived; the number counts those that have.
    Waiting(nat),
    /// Every component has arrived.
    Released,
    /// A component failed to build or to init.
    Failed,
}

/// What a component does after it has arrived at the barrier.
#[derive(Clone, Copy, Debug, PartialEq, Eq, Structural)]
pub enum Arrival {
    /// It was the last to arrive: it wakes all waiters and goes on.
    Opened,
    /// The barrier was open already: it goes on.
    Proceed,
    /// It waits until the barrier opens.
    Wait,
}

/// The counters of a startup barrier: the arrivals that open it, the
/// arrivals counted so far, and whether it was marked failed.
pub struct BarrierModel {
    pub total: nat,
    pub arrived: nat,
    pub failed: bool,
}

impl BarrierModel {
    /// A barrier for `total` components, before any arrival.
    pub open spec fn fresh(total: nat) -> BarrierModel {
        BarrierModel { total, arrived: 0, failed: false }
    }

    /// The state that the counters stand for.
    pub open spec fn state(self) -> BarrierState {
        if self.failed {
            BarrierState::Failed
        } else if self.arrived >= self.total {
            BarrierState::Released
        } else {
            BarrierState::Waiting(self.arrived)
        }
    }

    /// Whether the barrier is open.
    pub open spec fn ready(self) -> bool {
        !(self.state() is Waiting)
    }

    /// The barrier after one more arrival: it is counted while fewer than
    /// `total` are.
    pub open spec fn arrive(self) -> BarrierModel {
        if self.arrived < self.total {
            BarrierModel { arrived: self.arrived + 1, ..self }
        } else {
            self
        }
    }

    /// What the component that arrives is told.
    pub open spec fn arrival(self) -> Arrival {
        if self.ready() {
            Arrival::Proceed
        } else if self.arrived + 1 == self.total {
            Arrival::Opened
        } else {
            Arrival::Wait
        }
    }

    /// The barrier after it was marked failed: a waiting barrier fails,
    /// an open one stays as it is.
    pub open spec fn mark_failed(self) -> BarrierModel {
        if self.ready() {
            self
        } else {
            BarrierModel { failed: true, ..self }
        }
    }
}

/// The startup barrier: it opens when as many components have arrived as
/// it was made for, or when one is marked failed. Once open it stays as
/// it is.
pub struct StartupBarrier {
    total: usize,
    arrived: usize,
    failed: bool,
}

impl View for StartupBarrier {
    type V = BarrierModel;

    closed spec fn view(&self) -> BarrierModel {
        BarrierModel {
            total: self.total as nat,
            arrived: self.arrived as nat,
            failed: self.failed,
        }
    }
}

impl StartupBarrier {
    /// A barrier for `total` components. With none to wait for it is open
    /// from the start.
    pub fn new(total: usize) -> (barrier: Self)
        ensures
            barrier@ == BarrierModel::fresh(total as nat),
    {
        StartupBarrier { total, arrived: 0, failed: false }
    }

    /// Whether the barrier is open: all have arrived or one has failed.
    pub fn is_ready(&self) -> (ready: bool)
        ensures
            ready == self@.ready(),
    {
        self.arrived >= self.total || self.failed
    }

    /// Whether the barrier was marked failed.
    pub fn is_failed(&self) -> (failed: bool)
        ensures
            failed == (self@.state() is Failed),
    {
        self.failed
    }

    /// Counts an arrival. While fewer than the expected arrivals are
    /// counted, one more is; the arrival that completes the count opens
    /// the barrier. An open barrier stays open.
    pub fn arrive(&mut self) -> (arrival: Arrival)
        ensures
            final(self)@ == old(self)@.arrive(),
            arrival == old(self)@.arrival(),
    {
        let was_ready = self.arrived >= self.total || self.failed;
        if self.arrived < self.total {
            self.arrived += 1;
        }
        if was_ready {
            Arrival::Proceed
        } else if self.arrived == self.total {
            Arrival::Opened
        } else {
            Arrival::Wait
        }
    }

    /// Marks the start as failed. A waiting barrier opens as failed and
    /// its waiters are to be woken; an open barrier stays as it is.
    pub fn mark_failed(&mut self) -> (wake: bool)
        ensures
            final(self)@ == old(self)@.mark_failed(),
            wake == !old(self)@.ready(),
    {
        if self.failed || self.arrived >= self.total {
            false
        } else {
            self.failed = true;
            true
        }
    }
}

/// The steps of a barrier follow the state machine: an arrival moves a
/// waiting barrier to the next count, or releases it when it completes
/// the count; marking failed moves a waiting barrier to failed; and a
/// released or failed barrier stays in its state whatever comes.
pub proof fn lemma_barrier_steps(m: BarrierModel)
    ensures
        m.arrive().total == m.total,
        m.mark_failed().total == m.total,
        match m.state() {
            BarrierState::Waiting(k) => {
                &&& m.arrive().state() == (if k + 1 < m.total {
                    BarrierState::Waiting(k + 1)
                } else {
                    BarrierState::Released
                })
                &&& m.arrival() == (if k + 1 < m.total {
                    Arrival::Wait
                } else {
                    Arrival::Opened
                })
                &&& m.mark_failed().state() == BarrierState::Failed
            },
            BarrierState::Released => {
                &&& m.arrive().state() == BarrierState::Released
                &&& m.mark_failed().state() == BarrierState::Released
                &&& m.arrival() == Arrival::Proceed
            },
            BarrierState::Failed => {
                &&& m.arrive().state() == BarrierState::Failed
                &&& m.mark_failed().state() == BarrierState::Failed
                &&& m.arrival() == Arrival::Proceed
            },
        },
        BarrierModel::fresh(m.total).state() == (if m.total == 0 {
            BarrierState::Released
        } else {
            BarrierState::Waiting(0)
        }),
{
}

/// The subscription of a handler, as its worker holds it.
#[verifier::reject_recursive_types(T)]
pub struct AutoSubscription<T> {
    inner: Subscription<T>,
}

impl<T> AutoSubscription<T> {
    /// Wraps a subscription.
    pub fn new(inner: Subscription<T>) -> (sub: Self)
        ensures
            sub.subscription() == inner,
    {
        AutoSubscription { inner }
    }

    /// The subscription inside.
    pub closed spec fn subscription(&self) -> Subscription<T> {
        self.inner
    }

    /// Gives the subscription back.
    pub fn into_inner(self) -> (inner: Subscription<T>)
        ensures
            inner == self.subscription(),
    {
        self.inner
    }
}

/// What woke a worker.
#[derive(Clone, Copy, Debug, PartialEq, Eq, Structural)]
pub enum Wake {
    /// The stop signal.
    Stop,
    /// A message arrived.
    Message,
    /// The subscription is closed.
    Closed,
}

/// What a worker or a component task does next.
#[derive(Clone, Copy, Debug, PartialEq, Eq, Structural)]
pub enum Next {
    /// Call the method.
    Call,
    /// Go on with the next round or step.
    Continue,
    /// Leave: the stop signal came or the subscription is closed.
    Exit,
    /// Mark the startup barrier failed and leave with the error.
    Abort,
}

/// What the worker of a handler does when it wakes: it handles a message
/// and leaves on the stop signal or when its subscription is closed.
pub open spec fn handler_wake(wake: Wake) -> Next {
    match wake {
        Wake::Message => Next::Call,
        Wake::Stop | Wake::Closed => Next::Exit,
    }
}

/// What the worker of a looping active method does at the start of a
/// round: it calls the method, unless the stop signal was given.
pub open spec fn active_round(stopping: bool) -> Next {
    if stopping {
        Next::Exit
    } else {
        Next::Call
    }
}

/// What follows the lookup of a configuration value that an init hook
/// asks for: without the value the start is aborted.
pub open spec fn after_lookup(found: bool) -> Next {
    if found {
        Next::Continue
    } else {
        Next::Abort
    }
}

/// What follows a call whose returned value had this effect: only an
/// aborting failure ends the run.
pub open spec fn next_after(effect: Effect) -> Next {
    if effect.failure == Failure::Aborted {
        Next::Abort
    } else {
        Next::Continue
    }
}

/// Decides what the worker of a handler does when it wakes.
pub fn on_handler_wake(wake: Wake) -> (next: Next)
    ensures
        next == handler_wake(wake),
{
    match wake {
        Wake::Message => Next::Call,
        Wake::Stop => Next::Exit,
        Wake::Closed => Next::Exit,
    }
}

/// Decides what the worker of a looping active method does at the start
/// of a round.
pub fn on_active_round(stopping: bool) -> (next: Next)
    ensures
        next == active_round(stopping),
{
    if stopping {
        Next::Exit
    } else {
        Next::Call
    }
}

/// Decides what follows the lookup of a configuration value that an init
/// hook asks for.
pub fn on_lookup(found: bool) -> (next: Next)
    ensures
        next == after_lookup(found),
{
    if found {
        Next::Continue
    } else {
        Next::Abort
    }
}

/// Handles what a call returned: gives the publications to make and
/// decides whether the caller goes on.
pub fn on_return(plan: RetPlan, outcome: Outcome) -> (out: (Effect, Next))
    ensures
        out.0 == effect_of(plan, outcome),
        out.1 == next_after(effect_of(plan, outcome)),
{
    let effect = dispatch(plan, outcome);
    let next = match effect.failure {
        Failure::Aborted => Next::Abort,
        _ => Next::Continue,
    };
    (effect, next)
}

/// An error returned by a handler, an active method or a stop hook never
/// ends its caller: the worker goes on to the next message, whatever the
/// call returned.
pub proof fn lemma_error_keeps_worker(rc: RetCase, outcome: Outcome)
    ensures
        next_after(effect_of(ret_plan(rc, false), outcome)) == Next::Continue,
        handler_wake(Wake::Message) == Next::Call,
{
}

/// An init hook ends the run exactly when it returns an error.
pub proof fn lemma_init_error_aborts(rc: RetCase, outcome: Outcome)
    requires
        fits(ret_plan(rc, true), outcome),
    ensures
        next_after(effect_of(ret_plan(rc, true), outcome)) == Next::Abort <==> outcome.failed,
{
}

} // verus!
