//! The process-wide runtime state: the scheduler, the system event queue,
//! and the frame/input snapshot, driven by one call per host callback.
//!
//! Each host occurrence is one synchronous cycle: the event for the
//! occurrence is recorded (for ticks, after the snapshot is refreshed and
//! the frame counter advanced), the top-level task's treatment is decided,
//! and every registered waiter is woken. The cycle's outcome says which
//! waiters must be resumed and exactly which events they observe; the
//! queue is fully drained by the same cycle, so nothing is replayed to a
//! waiter that registers later.

use vstd::prelude::*;

use crate::events::{spec_event_for, event_for, HostNotification, SystemEvent};
use crate::input::{ButtonSet, FrameSnapshot};
use crate::scheduler::{DriveAction, Scheduler};

verus! {

/// The frame counter after one more tick: it advances by one and wraps
/// instead of overflowing (a wrap is never observed in practice, but must
/// not panic).
pub open spec fn next_frame(n: u32) -> u32 {
    if n == u32::MAX {
        0
    } else {
        (n + 1) as u32
    }
}

/// The single, never-destroyed root: constructed once when the host
/// delivers its start notification, then touched only from the host's one
/// thread, one cycle at a time.
pub struct Runtime {
    pub scheduler: Scheduler,
    /// The last tick's frame counter; 0 before the first tick.
    pub frame_number: u32,
    /// The snapshot of the tick that most recently ran, superseded —
    /// never mutated — by the next tick's snapshot.
    pub snapshot: Option<FrameSnapshot>,
    /// Events recorded in the current cycle and not yet observed by the
    /// wake phase; empty between cycles.
    pub queue: Vec<SystemEvent>,
    /// Whether the peripheral sensors are enabled, bundled into each
    /// tick's snapshot.
    pub peripherals_enabled: bool,
}

/// What one wake phase did: every waiter registered at the time, in
/// registration order, and the events of the cycle they observe.
pub struct NotifyReport {
    pub woken: Vec<u64>,
    pub delivered: Vec<SystemEvent>,
}

/// The outcome of one tick cycle.
pub struct TickOutcome {
    /// What the host must do for the top-level task.
    pub drive: DriveAction,
    /// The waiters to resume, in registration order.
    pub woken: Vec<u64>,
    /// The events those waiters observe; the last is this tick's
    /// `NextFrame`.
    pub delivered: Vec<SystemEvent>,
    /// The status reported back to the host's tick callback. The core
    /// never asks the host to halt the tick stream.
    pub keep_ticking: bool,
}

impl Runtime {
    /// Well-formedness: the scheduler's registry is well-formed and the
    /// live snapshot, if any, is the one of the current frame.
    pub open spec fn wf(self) -> bool {
        &&& self.scheduler.wf()
        &&& self.snapshot matches Some(s) ==> s.frame_number == self.frame_number
    }

    /// The runtime as constructed by the start notification: no task yet,
    /// no waiters, frame counter at its start value, nothing recorded.
    pub fn new() -> (r: Runtime)
        ensures
            r.scheduler.task is Vacant,
            r.scheduler.waiters@ =~= Seq::<u64>::empty(),
            r.scheduler.next_waiter_id == 0,
            r.frame_number == 0,
            r.snapshot is None,
            r.queue@ =~= Seq::<SystemEvent>::empty(),
            !r.peripherals_enabled,
            r.wf(),
    {
        Runtime {
            scheduler: Scheduler::new(),
            frame_number: 0,
            snapshot: None,
            queue: Vec::new(),
            peripherals_enabled: false,
        }
    }

    /// Switches the peripheral sensors on or off; the flag is captured by
    /// each subsequent tick's snapshot.
    pub fn set_peripherals_enabled(&mut self, enabled: bool)
        ensures
            final(self).peripherals_enabled == enabled,
            final(self).scheduler == old(self).scheduler,
            final(self).frame_number == old(self).frame_number,
            final(self).snapshot == old(self).snapshot,
            final(self).queue@ == old(self).queue@,
    {
        self.peripherals_enabled = enabled;
    }

    /// Appends a system event to the current cycle's queue. The wake phase
    /// of the same cycle drains it; no event is ever silently dropped.
    pub fn add_system_event(&mut self, e: SystemEvent)
        ensures
            final(self).queue@ == old(self).queue@.push(e),
            final(self).scheduler == old(self).scheduler,
            final(self).frame_number == old(self).frame_number,
            final(self).snapshot == old(self).snapshot,
            final(self).peripherals_enabled == old(self).peripherals_enabled,
    {
        self.queue.push(e);
    }

    /// Wakes every registered waiter unconditionally — broadcast-wake —
    /// and hands them the cycle's events; each waiter re-checks the events
    /// to decide relevance. The queue is drained: events do not persist
    /// into the next cycle.
    pub fn notify_waiters(&mut self) -> (r: NotifyReport)
        ensures
            r.woken@ == old(self).scheduler.waiters@,
            r.delivered@ == old(self).queue@,
            final(self).queue@ =~= Seq::<SystemEvent>::empty(),
            final(self).scheduler == old(self).scheduler,
            final(self).frame_number == old(self).frame_number,
            final(self).snapshot == old(self).snapshot,
            final(self).peripherals_enabled == old(self).peripherals_enabled,
    {
        let mut woken: Vec<u64> = Vec::new();
        let n = self.scheduler.waiters.len();
        let mut i: usize = 0;
        while i < n
            invariant
                n == self.scheduler.waiters@.len(),
                i <= n,
                woken@ =~= self.scheduler.waiters@.subrange(0, i as int),
            decreases n - i,
        {
            woken.push(self.scheduler.waiters[i]);
            proof {
                assert(self.scheduler.waiters@.subrange(0, i + 1) =~= self.scheduler.waiters@
                    .subrange(0, i as int).push(self.scheduler.waiters@[i as int]));
            }
            i += 1;
        }
        proof {
            assert(self.scheduler.waiters@.subrange(0, n as int) =~= self.scheduler.waiters@);
        }
        let mut delivered: Vec<SystemEvent> = Vec::new();
        core::mem::swap(&mut delivered, &mut self.queue);
        NotifyReport { woken, delivered }
    }

    /// One tick cycle, in the mandatory order: the frame counter advances,
    /// the snapshot for exactly this tick is captured and published, the
    /// tick's `NextFrame` event is enqueued — all before the task drive is
    /// decided and before any waiter is woken, so a resumed task always
    /// sees this tick's data, never the previous tick's.
    ///
    /// `buttons` is what the host reported for this tick; the outcome's
    /// `NextFrame` carries it unchanged, never a stale set. Ticking before
    /// start-up has installed the task is a fatal integration error and is
    /// excluded outright.
    pub fn handle_tick(&mut self, buttons: ButtonSet) -> (out: TickOutcome)
        requires
            !(old(self).scheduler.task is Vacant),
            old(self).wf(),
        ensures
            tick_cycle(*old(self), buttons, *final(self), out),
            final(self).wf(),
    {
        let fnum = if self.frame_number == u32::MAX {
            0
        } else {
            self.frame_number + 1
        };
        self.frame_number = fnum;
        let snap = FrameSnapshot {
            frame_number: fnum,
            buttons,
            peripherals_enabled: self.peripherals_enabled,
        };
        self.snapshot = Some(snap);
        self.add_system_event(SystemEvent::NextFrame { frame_number: fnum, snapshot: snap });
        let drive = self.scheduler.drive_one_tick();
        let report = self.notify_waiters();
        TickOutcome { drive, woken: report.woken, delivered: report.delivered, keep_ticking: true }
    }

    /// One non-tick cycle: the event the notification records is enqueued
    /// and every registered waiter is woken, exactly once per notification
    /// and independent of any tick; the top-level task is not driven. An
    /// unrecognized notification is a no-op and does not fault.
    pub fn handle_notification(&mut self, n: HostNotification) -> (r: NotifyReport)
        ensures
            delivery_cycle(*old(self), n, *final(self), r),
    {
        match event_for(n) {
            Some(e) => {
                self.add_system_event(e);
                self.notify_waiters()
            },
            None => NotifyReport { woken: Vec::new(), delivered: Vec::new() },
        }
    }
}

/// Relates the runtime before and after one tick cycle to the tick's
/// host-reported buttons and the cycle's outcome. This is the whole
/// contract of `Runtime::handle_tick`.
pub open spec fn tick_cycle(pre: Runtime, buttons: ButtonSet, post: Runtime, out: TickOutcome) -> bool {
    let fnum = next_frame(pre.frame_number);
    let snap = FrameSnapshot {
        frame_number: fnum,
        buttons,
        peripherals_enabled: pre.peripherals_enabled,
    };
    let ev = SystemEvent::NextFrame { frame_number: fnum, snapshot: snap };
    &&& post.frame_number == fnum
    &&& post.snapshot == Some(snap)
    &&& out.delivered@ == pre.queue@.push(ev)
    &&& out.woken@ == pre.scheduler.waiters@
    &&& out.drive == (if pre.scheduler.task is Running {
        DriveAction::Advance
    } else {
        DriveAction::TaskAlreadyFinished
    })
    &&& out.keep_ticking
    &&& post.queue@ == Seq::<SystemEvent>::empty()
    &&& post.scheduler == pre.scheduler
    &&& post.peripherals_enabled == pre.peripherals_enabled
}

/// Relates the runtime before and after one non-tick cycle to the
/// notification and the wake report. This is the whole contract of
/// `Runtime::handle_notification`.
pub open spec fn delivery_cycle(
    pre: Runtime,
    n: HostNotification,
    post: Runtime,
    r: NotifyReport,
) -> bool {
    match spec_event_for(n) {
        Some(ev) => {
            &&& r.delivered@ == pre.queue@.push(ev)
            &&& r.woken@ == pre.scheduler.waiters@
            &&& post.queue@ == Seq::<SystemEvent>::empty()
            &&& post.scheduler == pre.scheduler
            &&& post.frame_number == pre.frame_number
            &&& post.snapshot == pre.snapshot
            &&& post.peripherals_enabled == pre.peripherals_enabled
        },
        None => {
            &&& r.woken@ == Seq::<u64>::empty()
            &&& r.delivered@ == Seq::<SystemEvent>::empty()
            &&& post.queue@ == pre.queue@
            &&& post.scheduler == pre.scheduler
            &&& post.frame_number == pre.frame_number
            &&& post.snapshot == pre.snapshot
            &&& post.peripherals_enabled == pre.peripherals_enabled
        },
    }
}

/// A run of consecutive tick cycles: `states` holds the runtime before
/// the first tick and after each tick, `buttons` what the host reported
/// per tick, `outs` each cycle's outcome.
pub open spec fn tick_chain(
    states: Seq<Runtime>,
    buttons: Seq<ButtonSet>,
    outs: Seq<TickOutcome>,
) -> bool {
    &&& states.len() == outs.len() + 1
    &&& buttons.len() == outs.len()
    &&& forall|i: int|
        0 <= i < outs.len() ==> #[trigger] tick_cycle(states[i], buttons[i], states[i + 1], outs[i])
}

/// Law: over any sequence of tick notifications the frame counter is
/// monotonic with no gaps and no duplicates — as long as it does not
/// wrap, the `NextFrame` of the `i`th tick (counting from 0) carries
/// exactly the start value plus `i + 1`.
pub proof fn lemma_nth_frame_number(
    states: Seq<Runtime>,
    buttons: Seq<ButtonSet>,
    outs: Seq<TickOutcome>,
    i: int,
)
    requires
        tick_chain(states, buttons, outs),
        states[0].frame_number + outs.len() <= u32::MAX,
        0 <= i < outs.len(),
    ensures
        states[i + 1].frame_number == states[0].frame_number + i + 1,
        outs[i].delivered@.last() == (SystemEvent::NextFrame {
            frame_number: states[i + 1].frame_number,
            snapshot: states[i + 1].snapshot.unwrap(),
        }),
    decreases i,
{
    if i > 0 {
        lemma_nth_frame_number(states, buttons, outs, i - 1);
    }
    assert(tick_cycle(states[i], buttons[i], states[i + 1], outs[i]));
}

/// Law: the snapshot a woken waiter observes in a tick's `NextFrame` is
/// exactly the snapshot live after that tick, and its button sets are
/// exactly what the host reported for that tick — never a previous
/// tick's values.
pub proof fn lemma_snapshot_never_stale(
    pre: Runtime,
    buttons: ButtonSet,
    post: Runtime,
    out: TickOutcome,
)
    requires
        tick_cycle(pre, buttons, post, out),
    ensures
        out.delivered@.last() == (SystemEvent::NextFrame {
            frame_number: post.frame_number,
            snapshot: post.snapshot.unwrap(),
        }),
        post.snapshot.unwrap().buttons == buttons,
{
}

/// Law: a waiter registered before a cycle is woken by that cycle — its
/// handle is in the wake report, before the next tick's snapshot can
/// supersede the one it observes.
pub proof fn lemma_registered_waiter_is_notified(
    s0: Runtime,
    s1: Runtime,
    id: u64,
    n: HostNotification,
    s2: Runtime,
    r: NotifyReport,
)
    requires
        // what registering a waiter on `s0` ensures of `s1`
        s1.scheduler.waiters@ == s0.scheduler.waiters@.push(id),
        delivery_cycle(s1, n, s2, r),
        spec_event_for(n) is Some,
    ensures
        r.woken@.contains(id),
{
    assert(r.woken@[r.woken@.len() - 1] == id);
}

/// Law: the same, for a tick cycle waking a registered waiter.
pub proof fn lemma_registered_waiter_sees_tick(
    s0: Runtime,
    s1: Runtime,
    id: u64,
    buttons: ButtonSet,
    s2: Runtime,
    out: TickOutcome,
)
    requires
        s1.scheduler.waiters@ == s0.scheduler.waiters@.push(id),
        tick_cycle(s1, buttons, s2, out),
    ensures
        out.woken@.contains(id),
{
    assert(out.woken@[out.woken@.len() - 1] == id);
}

/// Law: broadcast-wake is exact — in a cycle started from a well-formed
/// runtime, each registered waiter is woken exactly once: its handle
/// occurs exactly once in the wake report.
pub proof fn lemma_waiter_woken_exactly_once(
    pre: Runtime,
    n: HostNotification,
    post: Runtime,
    r: NotifyReport,
    id: u64,
)
    requires
        pre.wf(),
        delivery_cycle(pre, n, post, r),
        spec_event_for(n) is Some,
        pre.scheduler.waiters@.contains(id),
    ensures
        r.woken@.to_multiset().count(id) == 1,
{
    assert(r.woken@.no_duplicates());
    r.woken@.lemma_multiset_has_no_duplicates();
    r.woken@.to_multiset_ensures();
}

/// Law: no event replay. Between cycles the queue is empty, so a cycle
/// delivers exactly the one event of its own notification; a waiter that
/// registers after an event's cycle has drained can never observe that
/// missed event.
pub proof fn lemma_no_retroactive_notification(
    s1: Runtime,
    s2: Runtime,
    id: u64,
    n: HostNotification,
    s3: Runtime,
    r: NotifyReport,
    missed: SystemEvent,
)
    requires
        // `s1` is the state some earlier cycle — the one that delivered
        // `missed` — left behind: its queue is drained.
        s1.queue@ == Seq::<SystemEvent>::empty(),
        // what registering a waiter on `s1` ensures of `s2`
        s2.scheduler.waiters@ == s1.scheduler.waiters@.push(id),
        s2.queue@ == s1.queue@,
        delivery_cycle(s2, n, s3, r),
        spec_event_for(n) matches Some(ev) && ev != missed,
    ensures
        !r.delivered@.contains(missed),
{
    let ev = spec_event_for(n).unwrap();
    assert(r.delivered@ =~= seq![ev]);
    assert forall|i: int| 0 <= i < r.delivered@.len() implies r.delivered@[i] != missed by {
        assert(r.delivered@[i] == ev);
    }
}

} // verus!
