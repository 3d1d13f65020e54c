//! Scenario tests driving the runtime core exactly as the host event
//! surface would: start, ticks, key and lifecycle notifications.

use windup::events::{HostNotification, SystemEvent};
use windup::input::{ButtonSet, FrameSnapshot};
use windup::runtime::Runtime;
use windup::scheduler::{DriveAction, SchedulerError, TaskSlot};

const BUTTON_A: u32 = 0x20;

fn started_runtime() -> Runtime {
    let mut r = Runtime::new();
    r.scheduler.install().expect("first install must succeed");
    r
}

#[test]
fn start_installs_task_once() {
    let mut r = Runtime::new();
    assert!(matches!(r.scheduler.task, TaskSlot::Vacant));
    assert_eq!(r.scheduler.install(), Ok(()));
    assert!(matches!(r.scheduler.task, TaskSlot::Running));
}

#[test]
fn second_install_is_rejected_never_ignored() {
    let mut r = started_runtime();
    assert_eq!(
        r.scheduler.install(),
        Err(SchedulerError::TaskAlreadyInstalled)
    );
    // the rejected call left the slot untouched
    assert!(matches!(r.scheduler.task, TaskSlot::Running));
}

#[test]
fn three_ticks_count_frames_one_two_three() {
    let mut r = started_runtime();
    let buttons = ButtonSet {
        current: BUTTON_A,
        pressed: BUTTON_A,
        released: 0,
    };
    let mut seen: Vec<u32> = Vec::new();
    for _ in 0..3 {
        let out = r.handle_tick(buttons);
        assert!(out.keep_ticking);
        assert_eq!(out.delivered.len(), 1);
        match out.delivered[0] {
            SystemEvent::NextFrame {
                frame_number,
                snapshot,
            } => {
                seen.push(frame_number);
                assert_eq!(snapshot.buttons.current, BUTTON_A);
                assert_eq!(snapshot.buttons.pressed, BUTTON_A);
                assert_eq!(snapshot.buttons.released, 0);
            }
            ref other => panic!("expected NextFrame, got {:?}", other),
        }
    }
    assert_eq!(seen, vec![1, 2, 3]);
}

#[test]
fn snapshot_is_this_ticks_not_a_stale_one() {
    let mut r = started_runtime();
    let first = ButtonSet {
        current: BUTTON_A,
        pressed: BUTTON_A,
        released: 0,
    };
    let second = ButtonSet {
        current: 0,
        pressed: 0,
        released: BUTTON_A,
    };
    r.handle_tick(first);
    let out = r.handle_tick(second);
    let expected = FrameSnapshot {
        frame_number: 2,
        buttons: second,
        peripherals_enabled: false,
    };
    assert_eq!(r.snapshot, Some(expected));
    assert_eq!(
        out.delivered,
        vec![SystemEvent::NextFrame {
            frame_number: 2,
            snapshot: expected,
        }]
    );
}

#[test]
fn waiter_hears_key_then_next_frame_in_order() {
    let mut r = started_runtime();
    let id = r
        .scheduler
        .register_waiter()
        .expect("handle space must not be exhausted");
    let rep = r.handle_notification(HostNotification::KeyPressed { code: 5 });
    assert_eq!(rep.woken, vec![id]);
    assert_eq!(rep.delivered, vec![SystemEvent::KeyPressed { code: 5 }]);
    let out = r.handle_tick(ButtonSet::idle());
    assert_eq!(out.woken, vec![id]);
    assert_eq!(out.delivered.len(), 1);
    assert!(matches!(
        out.delivered[0],
        SystemEvent::NextFrame { frame_number: 1, .. }
    ));
}

#[test]
fn terminate_without_waiters_notifies_nobody() {
    let mut r = started_runtime();
    let rep = r.handle_notification(HostNotification::Terminate);
    assert!(rep.woken.is_empty());
    assert_eq!(rep.delivered, vec![SystemEvent::WillTerminate]);
    // the runtime is otherwise unchanged
    assert!(matches!(r.scheduler.task, TaskSlot::Running));
    assert_eq!(r.frame_number, 0);
    assert_eq!(r.snapshot, None);
    assert!(r.queue.is_empty());
}

#[test]
fn waiter_registered_after_event_sees_nothing_of_it() {
    let mut r = started_runtime();
    let rep = r.handle_notification(HostNotification::KeyPressed { code: 9 });
    assert!(rep.woken.is_empty());
    // the event's cycle is over; a late registration must not replay it
    let id = r.scheduler.register_waiter().unwrap();
    let rep2 = r.handle_notification(HostNotification::Lock);
    assert_eq!(rep2.woken, vec![id]);
    assert_eq!(rep2.delivered, vec![SystemEvent::WillLock]);
}

#[test]
fn every_lifecycle_notification_maps_to_its_event() {
    let cases = [
        (HostNotification::Lock, SystemEvent::WillLock),
        (HostNotification::Unlock, SystemEvent::DidUnlock),
        (HostNotification::Sleep, SystemEvent::WillSleep),
        (HostNotification::Pause, SystemEvent::WillPause),
        (HostNotification::Resume, SystemEvent::WillResume),
        (HostNotification::Terminate, SystemEvent::WillTerminate),
        (
            HostNotification::KeyReleased { code: 7 },
            SystemEvent::KeyReleased { code: 7 },
        ),
    ];
    for (n, e) in cases {
        let mut r = started_runtime();
        let rep = r.handle_notification(n);
        assert_eq!(rep.delivered, vec![e]);
    }
}

#[test]
fn unrecognized_notification_is_a_noop() {
    let mut r = started_runtime();
    let id = r.scheduler.register_waiter().unwrap();
    let rep = r.handle_notification(HostNotification::Other);
    assert!(rep.woken.is_empty());
    assert!(rep.delivered.is_empty());
    assert_eq!(r.scheduler.waiters, vec![id]);
    assert_eq!(r.frame_number, 0);
}

#[test]
fn frame_counter_wraps_instead_of_panicking() {
    let mut r = started_runtime();
    r.frame_number = u32::MAX;
    let out = r.handle_tick(ButtonSet::idle());
    assert_eq!(r.frame_number, 0);
    assert!(matches!(
        out.delivered[0],
        SystemEvent::NextFrame { frame_number: 0, .. }
    ));
}

#[test]
fn peripherals_flag_is_captured_by_the_next_snapshot() {
    let mut r = started_runtime();
    r.set_peripherals_enabled(true);
    r.handle_tick(ButtonSet::idle());
    assert!(r.snapshot.unwrap().peripherals_enabled);
}

#[test]
fn finished_task_is_reported_not_fatal() {
    let mut r = started_runtime();
    let out = r.handle_tick(ButtonSet::idle());
    assert_eq!(out.drive, DriveAction::Advance);
    r.scheduler.note_task_finished();
    let out2 = r.handle_tick(ButtonSet::idle());
    assert_eq!(out2.drive, DriveAction::TaskAlreadyFinished);
    // the host keeps ticking either way
    assert!(out2.keep_ticking);
    assert_eq!(r.frame_number, 2);
}

#[test]
fn deregistered_waiter_is_not_woken_again() {
    let mut r = started_runtime();
    let a = r.scheduler.register_waiter().unwrap();
    let b = r.scheduler.register_waiter().unwrap();
    assert_ne!(a, b);
    r.scheduler.deregister_waiter(a);
    let rep = r.handle_notification(HostNotification::Pause);
    assert_eq!(rep.woken, vec![b]);
}

#[test]
fn deregistering_an_unknown_handle_changes_nothing() {
    let mut r = started_runtime();
    let a = r.scheduler.register_waiter().unwrap();
    r.scheduler.deregister_waiter(12345);
    assert_eq!(r.scheduler.waiters, vec![a]);
    // handles are never reissued, even after removals
    r.scheduler.deregister_waiter(a);
    let b = r.scheduler.register_waiter().unwrap();
    assert_ne!(a, b);
}

#[test]
fn waiter_handle_space_exhaustion_is_recoverable() {
    let mut r = started_runtime();
    r.scheduler.next_waiter_id = u64::MAX;
    assert_eq!(r.scheduler.register_waiter(), None);
    assert!(r.scheduler.waiters.is_empty());
}
