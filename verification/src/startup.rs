//! The startup of all components together: every task runs its program,
//! and the barrier holds each of them until all have subscribed. The
//! model below follows the tasks step by step and shows what the barrier
//! guarantees.

use vstd::prelude::*;
use crate::component::BarrierModel;
use crate::emit_run::{
    RunParts, barrier_position, lemma_barrier_splits_program, run_program, subscribe_position,
};

verus! {

/// Where one component task stands.
pub struct TaskState {
    /// The position of the step that the task takes next.
    pub pc: nat,
    /// Whether the task has arrived at the barrier.
    pub arrived: bool,
    /// Whether the task has left because an init hook failed or a
    /// configuration value was missing.
    pub aborted: bool,
}

/// All component tasks of one start, with the barrier they share.
pub struct System {
    pub parts: Seq<RunParts>,
    pub tasks: Seq<TaskState>,
    pub barrier: BarrierModel,
}

/// One move of a task.
pub enum Move {
    /// Take a step that is not the barrier.
    Advance,
    /// Fail in an init hook or for want of a configuration value: mark
    /// the barrier failed and leave.
    Abort,
    /// Arrive at the barrier.
    Arrive,
    /// Pass the open barrier.
    Pass,
}

/// The system when the tasks are spawned: every task stands before its
/// first step, and the barrier expects one arrival per task.
pub open spec fn initial(parts: Seq<RunParts>) -> System {
    System {
        parts,
        tasks: Seq::new(parts.len(), |i: int| TaskState { pc: 0, arrived: false, aborted: false }),
        barrier: BarrierModel::fresh(parts.len()),
    }
}

/// Whether task `i` can make the move.
pub open spec fn enabled(sys: System, i: int, mv: Move) -> bool {
    &&& 0 <= i < sys.tasks.len()
    &&& i < sys.parts.len()
    &&& !sys.tasks[i].aborted
    &&& sys.tasks[i].pc < run_program(sys.parts[i]).len()
    &&& match mv {
        Move::Advance => !(run_program(sys.parts[i])[sys.tasks[i].pc as int] is ArriveAndWait),
        Move::Abort => run_program(sys.parts[i])[sys.tasks[i].pc as int] is Init
            || run_program(sys.parts[i])[sys.tasks[i].pc as int] is Require,
        Move::Arrive => run_program(sys.parts[i])[sys.tasks[i].pc as int] is ArriveAndWait
            && !sys.tasks[i].arrived,
        Move::Pass => run_program(sys.parts[i])[sys.tasks[i].pc as int] is ArriveAndWait
            && sys.tasks[i].arrived && sys.barrier.ready(),
    }
}

/// The system after task `i` has made the move.
pub open spec fn after(sys: System, i: int, mv: Move) -> System {
    let t = sys.tasks[i];
    match mv {
        Move::Advance | Move::Pass => System {
            tasks: sys.tasks.update(i, TaskState { pc: t.pc + 1, ..t }),
            ..sys
        },
        Move::Abort => System {
            tasks: sys.tasks.update(i, TaskState { aborted: true, ..t }),
            barrier: sys.barrier.mark_failed(),
            ..sys
        },
        Move::Arrive => System {
            tasks: sys.tasks.update(i, TaskState { arrived: true, ..t }),
            barrier: sys.barrier.arrive(),
            ..sys
        },
    }
}

/// How many of the first `n` tasks have arrived.
pub open spec fn arrived_count(tasks: Seq<TaskState>, n: int) -> nat
    decreases n,
{
    if n <= 0 {
        0
    } else if tasks[n - 1].arrived {
        arrived_count(tasks, n - 1) + 1
    } else {
        arrived_count(tasks, n - 1)
    }
}

/// Whether task `i` stands where the barrier allows.
pub open spec fn task_in_order(sys: System, i: int) -> bool {
    let t = sys.tasks[i];
    let at = barrier_position(sys.parts[i]);
    &&& t.pc <= run_program(sys.parts[i]).len()
    &&& t.arrived ==> t.pc >= at && !t.aborted
    &&& !t.arrived ==> t.pc <= at
    &&& t.pc > at ==> sys.barrier.ready()
    &&& t.aborted ==> t.pc < at && sys.barrier.failed
}

/// What holds of every system that the moves can reach: the barrier
/// expects and counts the tasks, and every task stands where the barrier
/// allows.
pub open spec fn in_order(sys: System) -> bool {
    &&& sys.tasks.len() == sys.parts.len()
    &&& sys.barrier.total == sys.parts.len()
    &&& sys.barrier.arrived == arrived_count(sys.tasks, sys.tasks.len() as int)
    &&& forall|i: int| 0 <= i < sys.tasks.len() ==> #[trigger] task_in_order(sys, i)
}

/// Whether task `i` has made every one of its subscriptions.
pub open spec fn has_subscribed(sys: System, i: int) -> bool {
    forall|k: int|
        0 <= k < sys.parts[i].sub_decls@.len() ==> #[trigger] subscribe_position(sys.parts[i], k)
            < sys.tasks[i].pc
}

/// Among the first `n` tasks no more than `n` have arrived; where `n`
/// have, each of them has.
proof fn lemma_count_all(tasks: Seq<TaskState>, n: int)
    requires
        0 <= n <= tasks.len(),
    ensures
        arrived_count(tasks, n) <= n,
        arrived_count(tasks, n) == n ==> forall|i: int| 0 <= i < n ==> tasks[i].arrived,
    decreases n,
{
    if n > 0 {
        lemma_count_all(tasks, n - 1);
    }
}

/// The count after one task was replaced: one more where the task
/// arrives, the same where its arrival is as before.
proof fn lemma_count_update(tasks: Seq<TaskState>, i: int, t: TaskState, n: int)
    requires
        0 <= i < tasks.len(),
        0 <= n <= tasks.len(),
    ensures
        arrived_count(tasks.update(i, t), n) == if i < n && t.arrived && !tasks[i].arrived {
            arrived_count(tasks, n) + 1
        } else if i < n && !t.arrived && tasks[i].arrived {
            (arrived_count(tasks, n) - 1) as nat
        } else {
            arrived_count(tasks, n)
        },
        i < n && tasks[i].arrived ==> arrived_count(tasks, n) >= 1,
    decreases n,
{
    if n > 0 {
        lemma_count_update(tasks, i, t, n - 1);
    }
}

/// The system is in order when the tasks are spawned.
pub proof fn lemma_initial_in_order(parts: Seq<RunParts>)
    ensures
        in_order(initial(parts)),
{
    let sys = initial(parts);
    assert forall|n: int| 0 <= n <= sys.tasks.len() implies arrived_count(sys.tasks, n) == 0 by {
        lemma_count_zero(sys.tasks, n);
    }
    assert forall|i: int| 0 <= i < sys.tasks.len() implies #[trigger] task_in_order(sys, i) by {
        lemma_barrier_splits_program(sys.parts[i]);
    }
}

/// Where none of the first `n` tasks has arrived, the count is 0.
proof fn lemma_count_zero(tasks: Seq<TaskState>, n: int)
    requires
        0 <= n <= tasks.len(),
        forall|i: int| 0 <= i < n ==> !tasks[i].arrived,
    ensures
        arrived_count(tasks, n) == 0,
    decreases n,
{
    if n > 0 {
        lemma_count_zero(tasks, n - 1);
    }
}

/// Every move that a task can make leaves the system in order.
pub proof fn lemma_move_keeps_order(sys: System, i: int, mv: Move)
    requires
        in_order(sys),
        enabled(sys, i, mv),
    ensures
        in_order(after(sys, i, mv)),
{
    let next = after(sys, i, mv);
    let t = sys.tasks[i];
    let n = sys.tasks.len() as int;
    let at = barrier_position(sys.parts[i]);
    let program = run_program(sys.parts[i]);
    lemma_barrier_splits_program(sys.parts[i]);
    assert(task_in_order(sys, i));
    lemma_count_all(sys.tasks, n);
    lemma_count_update(sys.tasks, i, next.tasks[i], n);
    // The step at the barrier's position is the barrier, and no other is;
    // an init hook stands before it.
    assert(program[t.pc as int] is ArriveAndWait <==> t.pc == at);
    assert(program[t.pc as int] is Init || program[t.pc as int] is Require ==> t.pc < at);
    // A task that has not arrived keeps the count below the number of
    // tasks, so the barrier still waits or has failed already.
    assert(!t.arrived ==> arrived_count(sys.tasks, n) < n);
    assert forall|k: int| 0 <= k < next.tasks.len() implies #[trigger] task_in_order(next, k) by {
        assert(task_in_order(sys, k));
    }
}

/// The barrier gates what follows it. In a system that is in order and
/// whose start has not failed, once any task is past the barrier, and so
/// may run its active methods or its workers, every task has made all
/// of its subscriptions.
pub proof fn lemma_barrier_gates(sys: System, j: int)
    requires
        in_order(sys),
        !sys.barrier.failed,
        0 <= j < sys.tasks.len(),
        sys.tasks[j].pc > barrier_position(sys.parts[j]),
    ensures
        forall|i: int| 0 <= i < sys.tasks.len() ==> #[trigger] has_subscribed(sys, i),
{
    let n = sys.tasks.len() as int;
    assert(task_in_order(sys, j));
    lemma_count_all(sys.tasks, n);
    assert forall|i: int| 0 <= i < sys.tasks.len() implies #[trigger] has_subscribed(sys, i) by {
        assert(task_in_order(sys, i));
    }
}

} // verus!
