//! The scheduler: the single top-level task's resume slot and the registry
//! of passive wake subscriptions.
//!
//! The top-level task itself lives on the host's side as a resumable
//! computation; the scheduler tracks its slot and decides, once per tick,
//! whether the host must advance it. Waiters are identified by handles the
//! scheduler issues; the host maps each handle to the suspended piece of
//! application logic it resumes.

use vstd::prelude::*;

verus! {

/// State of the single top-level task's resume slot. The slot is vacant
/// only before program start-up completes; the installed task is expected
/// to run forever, so `Finished` marks the unintended-but-detectable end
/// state of dead application logic.
#[derive(Clone, Copy, PartialEq, Eq, Structural, Debug)]
pub enum TaskSlot {
    Vacant,
    Running,
    Finished,
}

/// Start-up misuse that the scheduler rejects rather than ignores.
#[derive(Clone, Copy, PartialEq, Eq, Structural, Debug)]
pub enum SchedulerError {
    /// The top-level task's slot was already populated. Installing twice
    /// reflects a broken start-up sequence; the host must treat it as fatal.
    TaskAlreadyInstalled,
}

/// What the host must do for the top-level task in this tick's cycle.
#[derive(Clone, Copy, PartialEq, Eq, Structural, Debug)]
pub enum DriveAction {
    /// Advance the task to its next suspension point.
    Advance,
    /// The task has permanently finished, which its contract forbids: do
    /// nothing, but the condition is worth diagnosing (for example by
    /// logging); the host just keeps ticking.
    TaskAlreadyFinished,
}

/// The scheduler: one top-level resume slot plus the set of registered
/// passive waiters, in registration order.
pub struct Scheduler {
    pub task: TaskSlot,
    pub waiters: Vec<u64>,
    pub next_waiter_id: u64,
}

impl Scheduler {
    /// Well-formedness: waiter handles are pairwise distinct and below the
    /// next handle to be issued, so a fresh registration never collides.
    pub open spec fn wf(self) -> bool {
        &&& forall|i: int, j: int|
            0 <= i < j < self.waiters@.len() ==> self.waiters@[i] != self.waiters@[j]
        &&& forall|i: int| 0 <= i < self.waiters@.len() ==> self.waiters@[i] < self.next_waiter_id
    }

    /// A scheduler before program start: no task, no waiters.
    pub fn new() -> (s: Scheduler)
        ensures
            s.task is Vacant,
            s.waiters@ =~= Seq::<u64>::empty(),
            s.next_waiter_id == 0,
            s.wf(),
    {
        Scheduler { task: TaskSlot::Vacant, waiters: Vec::new(), next_waiter_id: 0 }
    }

    /// Populates the top-level task's resume slot. The slot is populated
    /// exactly once, during start-up; a second installation is rejected and
    /// never silently ignored — the host treats the error as fatal, since
    /// it reflects a broken start-up sequence, and the scheduler's state is
    /// left untouched by the rejected call.
    pub fn install(&mut self) -> (r: Result<(), SchedulerError>)
        ensures
            r is Ok <==> old(self).task is Vacant,
            old(self).task is Vacant ==> final(self).task is Running,
            !(old(self).task is Vacant) ==> {
                &&& r == Result::<(), SchedulerError>::Err(SchedulerError::TaskAlreadyInstalled)
                &&& final(self).task == old(self).task
            },
            final(self).waiters@ == old(self).waiters@,
            final(self).next_waiter_id == old(self).next_waiter_id,
    {
        match self.task {
            TaskSlot::Vacant => {
                self.task = TaskSlot::Running;
                Ok(())
            },
            _ => Err(SchedulerError::TaskAlreadyInstalled),
        }
    }

    /// Records that the host found the top-level task permanently finished
    /// when it tried to advance it. Not fatal — the host keeps ticking —
    /// but every later `drive_one_tick` reports the dead task.
    pub fn note_task_finished(&mut self)
        requires
            old(self).task is Running,
        ensures
            final(self).task is Finished,
            final(self).waiters@ == old(self).waiters@,
            final(self).next_waiter_id == old(self).next_waiter_id,
    {
        self.task = TaskSlot::Finished;
    }

    /// Decides this tick's treatment of the top-level task: advance it, or
    /// — if it has already permanently finished — leave it alone and report
    /// the diagnosable dead state. Ticking before start-up completes is a
    /// fatal integration error and is excluded outright.
    pub fn drive_one_tick(&self) -> (r: DriveAction)
        requires
            !(self.task is Vacant),
        ensures
            r == (if self.task is Running {
                DriveAction::Advance
            } else {
                DriveAction::TaskAlreadyFinished
            }),
    {
        match self.task {
            TaskSlot::Running => DriveAction::Advance,
            _ => DriveAction::TaskAlreadyFinished,
        }
    }

    /// Registers a passive waiter and returns its fresh handle. Waiters are
    /// woken on every system event, in registration order, and re-check the
    /// event queue themselves. Returns `None` only when the handle space is
    /// exhausted, the recoverable surface of registry exhaustion.
    pub fn register_waiter(&mut self) -> (r: Option<u64>)
        requires
            old(self).wf(),
        ensures
            final(self).wf(),
            old(self).next_waiter_id < u64::MAX ==> {
                &&& r == Some(old(self).next_waiter_id)
                &&& final(self).waiters@ == old(self).waiters@.push(old(self).next_waiter_id)
                &&& final(self).next_waiter_id == old(self).next_waiter_id + 1
            },
            old(self).next_waiter_id == u64::MAX ==> {
                &&& r is None
                &&& final(self).waiters@ == old(self).waiters@
                &&& final(self).next_waiter_id == old(self).next_waiter_id
            },
            final(self).task == old(self).task,
    {
        if self.next_waiter_id == u64::MAX {
            None
        } else {
            let id = self.next_waiter_id;
            self.waiters.push(id);
            self.next_waiter_id = id + 1;
            Some(id)
        }
    }

    /// The waiters without the given handle, in their original order.
    pub open spec fn spec_without(s: Seq<u64>, id: u64) -> Seq<u64> {
        s.filter(|w: u64| w != id)
    }

    /// Removes a waiter from the registry. A waiter that stops waiting must
    /// remove itself, or the registry grows without bound; removal of a
    /// handle that is not registered leaves the registry unchanged.
    pub fn deregister_waiter(&mut self, id: u64)
        requires
            old(self).wf(),
        ensures
            final(self).wf(),
            final(self).waiters@ == Self::spec_without(old(self).waiters@, id),
            final(self).task == old(self).task,
            final(self).next_waiter_id == old(self).next_waiter_id,
    {
        let ghost prior = self.waiters@;
        let mut kept: Vec<u64> = Vec::new();
        let mut i: usize = 0;
        while i < self.waiters.len()
            invariant
                i <= self.waiters@.len(),
                self.waiters@ == prior,
                kept@ =~= Self::spec_without(prior.subrange(0, i as int), id),
            decreases self.waiters@.len() - i,
        {
            proof {
                reveal(Seq::filter);
                assert(prior.subrange(0, i as int + 1).drop_last() =~= prior.subrange(0, i as int));
            }
            let w = self.waiters[i];
            if w != id {
                kept.push(w);
            }
            i += 1;
        }
        proof {
            assert(prior.subrange(0, prior.len() as int) =~= prior);
        }
        self.waiters = kept;
        proof {
            lemma_filter_keeps_wf(prior, id, old(self).next_waiter_id);
        }
    }
}

/// Filtering a registry keeps its handles distinct and bounded.
proof fn lemma_filter_keeps_wf(s: Seq<u64>, id: u64, bound: u64)
    requires
        forall|i: int, j: int| 0 <= i < j < s.len() ==> s[i] != s[j],
        forall|i: int| 0 <= i < s.len() ==> s[i] < bound,
    ensures
        forall|i: int, j: int|
            0 <= i < j < Scheduler::spec_without(s, id).len() ==> Scheduler::spec_without(s, id)[i]
                != Scheduler::spec_without(s, id)[j],
        forall|i: int|
            0 <= i < Scheduler::spec_without(s, id).len() ==> Scheduler::spec_without(s, id)[i]
                < bound,
    decreases s.len(),
{
    reveal(Seq::filter);
    if s.len() > 0 {
        let last = s.last();
        let rest = s.drop_last();
        lemma_filter_keeps_wf(rest, id, bound);
        let f = Scheduler::spec_without(s, id);
        let fr = Scheduler::spec_without(rest, id);
        if last != id {
            assert(f =~= fr.push(last));
            assert forall|i: int, j: int| 0 <= i < j < f.len() implies f[i] != f[j] by {
                if j < f.len() - 1 {
                    assert(f[i] == fr[i] && f[j] == fr[j]);
                } else {
                    assert(f[j] == last);
                    assert(fr.len() <= rest.len()) by {
                        rest.lemma_filter_len(|w: u64| w != id);
                    }
                    subseq_membership(rest, id, i);
                }
            }
        } else {
            assert(f =~= fr);
        }
    }
}

/// Every element of a filtered registry occurs in the registry it came from.
proof fn subseq_membership(s: Seq<u64>, id: u64, i: int)
    requires
        0 <= i < Scheduler::spec_without(s, id).len(),
    ensures
        s.contains(Scheduler::spec_without(s, id)[i]),
    decreases s.len(),
{
    reveal(Seq::filter);
    let f = Scheduler::spec_without(s, id);
    let rest = s.drop_last();
    let fr = Scheduler::spec_without(rest, id);
    if s.last() != id && i == f.len() - 1 {
        assert(f[i] == s.last());
        assert(s[s.len() - 1] == s.last());
    } else {
        subseq_membership(rest, id, i);
        let j = choose|j: int| 0 <= j < rest.len() && rest[j] == fr[i];
        assert(s[j] == fr[i]);
    }
}

} // verus!
