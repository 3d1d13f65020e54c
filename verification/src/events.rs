//! System events: the typed, one-shot notifications that the host event
//! surface delivers and the wake phase of a cycle consumes.

use vstd::prelude::*;

use crate::input::FrameSnapshot;

verus! {

/// A typed notification of a hardware or lifecycle occurrence. An event is
/// immutable once constructed, consumed exactly once by the wake phase of
/// the cycle that observes it, and never persisted across cycles.
#[derive(Clone, Copy, PartialEq, Eq, Structural, Debug)]
pub enum SystemEvent {
    /// A tick happened; carries the frame counter and the snapshot captured
    /// for exactly this tick.
    NextFrame { frame_number: u32, snapshot: FrameSnapshot },
    /// A key went down on the host.
    KeyPressed { code: u32 },
    /// A key went up on the host.
    KeyReleased { code: u32 },
    /// The device is about to lock.
    WillLock,
    /// The device was unlocked.
    DidUnlock,
    /// The device is about to go to low-power sleep.
    WillSleep,
    /// The program is about to be paused.
    WillPause,
    /// The program is about to be resumed.
    WillResume,
    /// The program is about to be terminated.
    WillTerminate,
}

/// One non-tick callback from the host event surface, after program start.
/// Ticks arrive through their own entry point, as does program start; every
/// other host notification is one of these. `Other` stands for any
/// unrecognized notification, which must be a no-op and must not fault.
#[derive(Clone, Copy, PartialEq, Eq, Structural, Debug)]
pub enum HostNotification {
    KeyPressed { code: u32 },
    KeyReleased { code: u32 },
    Lock,
    Unlock,
    Sleep,
    Pause,
    Resume,
    Terminate,
    Other,
}

/// The system event that a host notification records, if any: `None` for
/// an unrecognized notification.
pub open spec fn spec_event_for(n: HostNotification) -> Option<SystemEvent> {
    match n {
        HostNotification::KeyPressed { code } => Some(SystemEvent::KeyPressed { code }),
        HostNotification::KeyReleased { code } => Some(SystemEvent::KeyReleased { code }),
        HostNotification::Lock => Some(SystemEvent::WillLock),
        HostNotification::Unlock => Some(SystemEvent::DidUnlock),
        HostNotification::Sleep => Some(SystemEvent::WillSleep),
        HostNotification::Pause => Some(SystemEvent::WillPause),
        HostNotification::Resume => Some(SystemEvent::WillResume),
        HostNotification::Terminate => Some(SystemEvent::WillTerminate),
        HostNotification::Other => None,
    }
}

/// Maps a host notification to the system event it records.
pub fn event_for(n: HostNotification) -> (r: Option<SystemEvent>)
    ensures
        r == spec_event_for(n),
{
    match n {
        HostNotification::KeyPressed { code } => Some(SystemEvent::KeyPressed { code }),
        HostNotification::KeyReleased { code } => Some(SystemEvent::KeyReleased { code }),
        HostNotification::Lock => Some(SystemEvent::WillLock),
        HostNotification::Unlock => Some(SystemEvent::DidUnlock),
        HostNotification::Sleep => Some(SystemEvent::WillSleep),
        HostNotification::Pause => Some(SystemEvent::WillPause),
        HostNotification::Resume => Some(SystemEvent::WillResume),
        HostNotification::Terminate => Some(SystemEvent::WillTerminate),
        HostNotification::Other => None,
    }
}

} // verus!
