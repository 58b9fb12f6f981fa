//! Coordinated, bounded graceful shutdown of a set of named tasks.
//!
//! The coordinator owns the registered tasks and a single shared
//! cancellation token.  One task's failure, or an external termination
//! signal, requests cancellation for everybody: the token becomes set and
//! stays set, and cooperating tasks observe it to begin their own
//! shutdown.  Waiting is bounded: once cancellation was requested, every
//! task gets at least the grace period to finish, and after the grace
//! period the wait ends regardless of outstanding tasks.
//!
//! Time is virtual (milliseconds).  The blocking and sleeping happen
//! outside; the caller reports completions, failures and signals as they
//! occur and polls `wait_for_shutdown` with the current time.

use vstd::prelude::*;

verus! {

/// Lifecycle of the coordinator.  `Terminated` is terminal: no transition
/// leaves it.
#[derive(PartialEq, Eq, Structural, Clone, Copy, Debug)]
pub enum ShutdownState {
    /// Normal operation; the token is unset.
    Running,
    /// A task failed or a signal arrived; the token is set.
    CancelRequested,
    /// Waiting, bounded by the grace period, for remaining tasks.
    Draining,
    /// All tasks completed or the grace period elapsed.
    Terminated,
}

/// One registered task, by name, with what the coordinator knows of it.
#[derive(Clone, Copy)]
pub struct TaskEntry {
    pub name: &'static str,
    pub done: bool,
    pub failed: bool,
}

/// Supervises a named set of concurrently running tasks and provides the
/// single exit point for the process.
pub struct ShutdownCoordinator {
    /// The service name this coordinator supervises, for reporting.
    pub name: &'static str,
    pub state: ShutdownState,
    /// The shared cooperative-cancellation token: set once, never unset.
    pub token_cancelled: bool,
    /// Registered tasks, append-only until waiting begins.
    pub tasks: Vec<TaskEntry>,
    /// Set once waiting begins; no registration afterwards.
    pub frozen: bool,
    /// The time cancellation was first requested, if it was.
    pub cancel_at: Option<u64>,
}

impl ShutdownCoordinator {
    /// The coordinator's internal invariant, established by `new` and
    /// preserved by every transition.
    pub open spec fn wf(&self) -> bool {
        &&& (self.state is Running ==> !self.token_cancelled)
        &&& (self.state is CancelRequested || self.state is Draining ==> self.token_cancelled)
        &&& (self.token_cancelled <==> self.cancel_at is Some)
        &&& (forall|i: int|
            0 <= i < self.tasks@.len() && (#[trigger] self.tasks@[i]).failed
                ==> self.token_cancelled)
        &&& (forall|i: int|
            0 <= i < self.tasks@.len() && (#[trigger] self.tasks@[i]).failed
                ==> self.tasks@[i].done)
    }

    /// Every registered task has completed (cleanly or not).
    pub open spec fn all_done(&self) -> bool {
        forall|i: int| 0 <= i < self.tasks@.len() ==> (#[trigger] self.tasks@[i]).done
    }

    /// A fresh coordinator for the named service: running, no tasks, token
    /// unset.
    pub fn new(name: &'static str) -> (c: ShutdownCoordinator)
        ensures
            c.wf(),
            c.name == name,
            c.state is Running,
            !c.token_cancelled,
            c.tasks@.len() == 0,
            !c.frozen,
    {
        ShutdownCoordinator {
            name,
            state: ShutdownState::Running,
            token_cancelled: false,
            tasks: Vec::new(),
            frozen: false,
            cancel_at: None,
        }
    }

    /// Registers and starts a named task; its index identifies it in later
    /// reports.  Registration is only possible before waiting begins.
    pub fn spawn_task(&mut self, task_name: &'static str) -> (h: usize)
        requires
            old(self).wf(),
            !old(self).frozen,
            !(old(self).state is Terminated),
        ensures
            final(self).wf(),
            h == old(self).tasks@.len(),
            final(self).tasks@ == old(self).tasks@.push(
                TaskEntry { name: task_name, done: false, failed: false },
            ),
            final(self).state == old(self).state,
            final(self).token_cancelled == old(self).token_cancelled,
            final(self).cancel_at == old(self).cancel_at,
            final(self).frozen == old(self).frozen,
            final(self).name == old(self).name,
    {
        let h = self.tasks.len();
        self.tasks.push(TaskEntry { name: task_name, done: false, failed: false });
        h
    }

    /// A scoped registration for a long-running component that runs on the
    /// calling context rather than as a spawned task; it participates in
    /// the same bookkeeping, under the returned handle.
    pub fn guard(&mut self, component_name: &'static str) -> (h: usize)
        requires
            old(self).wf(),
            !old(self).frozen,
            !(old(self).state is Terminated),
        ensures
            final(self).wf(),
            h == old(self).tasks@.len(),
            final(self).tasks@ == old(self).tasks@.push(
                TaskEntry { name: component_name, done: false, failed: false },
            ),
            final(self).state == old(self).state,
            final(self).token_cancelled == old(self).token_cancelled,
            final(self).cancel_at == old(self).cancel_at,
            final(self).frozen == old(self).frozen,
            final(self).name == old(self).name,
    {
        self.spawn_task(component_name)
    }

    /// The shared cancellation signal, as every cooperating task observes
    /// it.  This is the only cross-task cancellation mechanism: a task
    /// that never checks it is not preempted.
    pub fn cancellation_token(&self) -> (set: bool)
        ensures
            set == self.token_cancelled,
    {
        self.token_cancelled
    }

    /// Reports that task `h` completed cleanly.  Nothing else changes: a
    /// clean completion cancels nobody.
    pub fn complete_task(&mut self, h: usize)
        requires
            old(self).wf(),
            h < old(self).tasks@.len(),
            !old(self).tasks@[h as int].failed,
        ensures
            final(self).wf(),
            final(self).tasks@ == old(self).tasks@.update(
                h as int,
                TaskEntry { name: old(self).tasks@[h as int].name, done: true, failed: false },
            ),
            final(self).state == old(self).state,
            final(self).token_cancelled == old(self).token_cancelled,
            final(self).cancel_at == old(self).cancel_at,
            final(self).frozen == old(self).frozen,
            final(self).name == old(self).name,
    {
        let name = self.tasks[h].name;
        self.tasks.set(h, TaskEntry { name, done: true, failed: false });
    }

    /// Reports that task `h` failed (error return or unexpected
    /// termination) at time `now`.  The failure requests cancellation for
    /// the whole coordinator: the shared token becomes set, so every
    /// sibling task observes it; siblings are not left running
    /// indefinitely on their own.
    pub fn fail_task(&mut self, h: usize, now: u64)
        requires
            old(self).wf(),
            h < old(self).tasks@.len(),
            !(old(self).state is Terminated),
        ensures
            final(self).wf(),
            final(self).tasks@ == old(self).tasks@.update(
                h as int,
                TaskEntry { name: old(self).tasks@[h as int].name, done: true, failed: true },
            ),
            // Every sibling now observes the token set.
            final(self).token_cancelled,
            final(self).state == if old(self).state is Running {
                ShutdownState::CancelRequested
            } else {
                old(self).state
            },
            // The earliest cancellation time is kept.
            final(self).cancel_at == if old(self).cancel_at is Some {
                old(self).cancel_at
            } else {
                Some(now)
            },
            final(self).frozen == old(self).frozen,
            final(self).name == old(self).name,
    {
        let name = self.tasks[h].name;
        self.tasks.set(h, TaskEntry { name, done: true, failed: true });
        self.token_cancelled = true;
        if matches!(self.state, ShutdownState::Running) {
            self.state = ShutdownState::CancelRequested;
        }
        if self.cancel_at.is_none() {
            self.cancel_at = Some(now);
        }
    }

    /// An external termination request (a signal) at time `now`: requests
    /// cancellation exactly as a task failure does, without marking any
    /// task.
    pub fn external_signal(&mut self, now: u64)
        requires
            old(self).wf(),
            !(old(self).state is Terminated),
        ensures
            final(self).wf(),
            final(self).tasks@ == old(self).tasks@,
            final(self).token_cancelled,
            final(self).state == if old(self).state is Running {
                ShutdownState::CancelRequested
            } else {
                old(self).state
            },
            final(self).cancel_at == if old(self).cancel_at is Some {
                old(self).cancel_at
            } else {
                Some(now)
            },
            final(self).frozen == old(self).frozen,
            final(self).name == old(self).name,
    {
        self.token_cancelled = true;
        if matches!(self.state, ShutdownState::Running) {
            self.state = ShutdownState::CancelRequested;
        }
        if self.cancel_at.is_none() {
            self.cancel_at = Some(now);
        }
    }

    /// Freezes registration: waiting is about to begin and the task set no
    /// longer grows.
    pub fn begin_wait(&mut self)
        requires
            old(self).wf(),
        ensures
            final(self).wf(),
            final(self).frozen,
            final(self).tasks@ == old(self).tasks@,
            final(self).state == old(self).state,
            final(self).token_cancelled == old(self).token_cancelled,
            final(self).cancel_at == old(self).cancel_at,
            final(self).name == old(self).name,
    {
        self.frozen = true;
    }

    /// One poll of the bounded wait, at time `now` with grace period
    /// `grace` (milliseconds).  Returns whether waiting is over; when it
    /// is, the coordinator is `Terminated`, the only terminal state.
    ///
    /// The wait ends when every registered task has completed, or once the
    /// grace period has elapsed after cancellation was requested —
    /// whichever comes first.  It ends within `grace` of the cancellation
    /// request even if a registered task never completes, and it never
    /// gives up before the grace period has elapsed: every task gets at
    /// least `grace` to observe the token and finish.
    pub fn wait_for_shutdown(&mut self, now: u64, grace: u64) -> (finished: bool)
        requires
            old(self).wf(),
            old(self).frozen,
            !(old(self).state is Terminated),
            old(self).cancel_at is Some ==> old(self).cancel_at->0 + grace <= u64::MAX,
        ensures
            final(self).wf(),
            final(self).tasks@ == old(self).tasks@,
            final(self).token_cancelled == old(self).token_cancelled,
            final(self).cancel_at == old(self).cancel_at,
            final(self).frozen,
            final(self).name == old(self).name,
            // The wait is over exactly when everything completed or the
            // grace period elapsed after the cancellation request.
            finished <==> (old(self).all_done() || (old(self).cancel_at is Some && now
                >= old(self).cancel_at->0 + grace)),
            finished ==> final(self).state is Terminated,
            // Not over: still running, or draining under the grace timer.
            !finished ==> final(self).state == if old(self).token_cancelled {
                ShutdownState::Draining
            } else {
                old(self).state
            },
    {
        let mut done = true;
        let mut i: usize = 0;
        while i < self.tasks.len()
            invariant
                0 <= i <= self.tasks@.len(),
                done <==> forall|j: int| 0 <= j < i ==> (#[trigger] self.tasks@[j]).done,
            decreases self.tasks@.len() - i,
        {
            if !self.tasks[i].done {
                done = false;
            }
            i += 1;
        }
        let grace_elapsed = match self.cancel_at {
            Some(c) => now >= c + grace,
            None => false,
        };
        if done || grace_elapsed {
            self.state = ShutdownState::Terminated;
            true
        } else {
            if self.token_cancelled {
                self.state = ShutdownState::Draining;
            }
            false
        }
    }
}

/// Any failed task in a well-formed coordinator means the shared token is
/// set: whenever one task has reported failure, every sibling that polls
/// the token observes cancellation.
pub proof fn lemma_failure_cancels_siblings(c: ShutdownCoordinator, h: int)
    requires
        c.wf(),
        0 <= h < c.tasks@.len(),
        c.tasks@[h].failed,
    ensures
        c.token_cancelled,
{
}

} // verus!
