//! Plain-value models of the two hardware devices the system owns: the
//! digital output pin and the one-shot alarm channel.
//!
//! Each device's state holds exactly what the control logic can observe or
//! change through the capability contract of the hardware abstraction
//! provider: the pin's logical level and the alarm's one-shot schedule,
//! latched-expiry flag and interrupt-notification enable. Both devices also
//! count the requests they have received and can be configured at
//! construction to reject requests, so the degraded modes (a rejected
//! schedule, a failed toggle) can be driven and observed.

use vstd::prelude::*;

verus! {

/// Error reported by the alarm channel when it rejects a schedule request
/// (for example, a deadline the hardware considers already elapsed).
#[derive(Clone, Copy, PartialEq, Eq, Structural, Debug)]
pub struct ScheduleError;

/// Error reported by the output pin when a toggle request fails at the
/// hardware level.
#[derive(Clone, Copy, PartialEq, Eq, Structural, Debug)]
pub struct ToggleError;

/// A push-pull digital output line.
pub struct OutputPin {
    /// Current logical level of the line.
    pub level: bool,
    /// Number of toggle requests this pin has received, accepted or not.
    pub toggle_requests: u64,
    /// When set, the hardware rejects every toggle request and the level
    /// never changes. Fixed at construction.
    pub fail_toggle: bool,
}

impl OutputPin {
    /// A fresh pin at the given level that accepts every toggle request.
    pub fn new(initial_level: bool) -> (p: OutputPin)
        ensures
            p.level == initial_level,
            p.toggle_requests == 0,
            !p.fail_toggle,
    {
        OutputPin { level: initial_level, toggle_requests: 0, fail_toggle: false }
    }

    /// A fresh pin at the given level that rejects every toggle request.
    pub fn failing(initial_level: bool) -> (p: OutputPin)
        ensures
            p.level == initial_level,
            p.toggle_requests == 0,
            p.fail_toggle,
    {
        OutputPin { level: initial_level, toggle_requests: 0, fail_toggle: true }
    }

    /// Request that the line change to the opposite logical level.
    pub fn toggle(&mut self) -> (r: Result<(), ToggleError>)
        requires
            old(self).toggle_requests < u64::MAX,
        ensures
            final(self).toggle_requests == old(self).toggle_requests + 1,
            final(self).fail_toggle == old(self).fail_toggle,
            !old(self).fail_toggle ==> final(self).level == !old(self).level && r is Ok,
            old(self).fail_toggle ==> final(self).level == old(self).level && r is Err,
    {
        self.toggle_requests = self.toggle_requests + 1;
        if self.fail_toggle {
            Err(ToggleError)
        } else {
            self.level = !self.level;
            Ok(())
        }
    }
}

/// A one-shot, re-armable alarm channel of the hardware timer.
pub struct AlarmChannel {
    /// The interval, in microseconds, of the one-shot schedule currently
    /// armed, if any. Consumed when the alarm expires.
    pub scheduled: Option<u32>,
    /// Latched expiry flag: set by the hardware when an armed schedule
    /// elapses, cleared by software.
    pub pending: bool,
    /// Whether expiry of this channel raises an interrupt request.
    pub interrupt_enabled: bool,
    /// Number of schedule requests this channel has received, accepted or
    /// rejected.
    pub schedule_requests: u64,
    /// When set, the hardware rejects every schedule request and the channel
    /// is never armed. Fixed at construction.
    pub fail_schedule: bool,
}

impl AlarmChannel {
    /// A fresh, disarmed channel that accepts every schedule request.
    pub fn new() -> (a: AlarmChannel)
        ensures
            a.scheduled is None,
            !a.pending,
            !a.interrupt_enabled,
            a.schedule_requests == 0,
            !a.fail_schedule,
    {
        AlarmChannel {
            scheduled: None,
            pending: false,
            interrupt_enabled: false,
            schedule_requests: 0,
            fail_schedule: false,
        }
    }

    /// A fresh, disarmed channel that rejects every schedule request.
    pub fn failing() -> (a: AlarmChannel)
        ensures
            a.scheduled is None,
            !a.pending,
            !a.interrupt_enabled,
            a.schedule_requests == 0,
            a.fail_schedule,
    {
        AlarmChannel {
            scheduled: None,
            pending: false,
            interrupt_enabled: false,
            schedule_requests: 0,
            fail_schedule: true,
        }
    }

    /// Request a one-shot firing after `interval_us` microseconds from now.
    /// An accepted request replaces any schedule still armed.
    pub fn schedule(&mut self, interval_us: u32) -> (r: Result<(), ScheduleError>)
        requires
            old(self).schedule_requests < u64::MAX,
        ensures
            final(self).schedule_requests == old(self).schedule_requests + 1,
            final(self).pending == old(self).pending,
            final(self).interrupt_enabled == old(self).interrupt_enabled,
            final(self).fail_schedule == old(self).fail_schedule,
            !old(self).fail_schedule ==> final(self).scheduled == Some(interval_us) && r is Ok,
            old(self).fail_schedule ==> final(self).scheduled == old(self).scheduled && r is Err,
    {
        self.schedule_requests = self.schedule_requests + 1;
        if self.fail_schedule {
            Err(ScheduleError)
        } else {
            self.scheduled = Some(interval_us);
            Ok(())
        }
    }

    /// Clear the latched expiry flag.
    pub fn clear_interrupt(&mut self)
        ensures
            *final(self) == (AlarmChannel { pending: false, ..*old(self) }),
    {
        self.pending = false;
    }

    /// Enable interrupt notification for this channel's expiry.
    pub fn enable_interrupt(&mut self)
        ensures
            *final(self) == (AlarmChannel { interrupt_enabled: true, ..*old(self) }),
    {
        self.interrupt_enabled = true;
    }

    /// The hardware timer reaches the armed deadline: the one-shot schedule
    /// is consumed and the expiry flag latched. Without an armed schedule
    /// nothing expires and the channel is unchanged.
    pub fn expire(&mut self)
        ensures
            old(self).scheduled is Some ==> *final(self) == (AlarmChannel {
                scheduled: None,
                pending: true,
                ..*old(self)
            }),
            old(self).scheduled is None ==> *final(self) == *old(self),
    {
        if self.scheduled.is_some() {
            self.scheduled = None;
            self.pending = true;
        }
    }
}

/// Exclusive ownership of the physical output line and the hardware alarm
/// channel, moved as one unit between the initializing context and the
/// interrupt handler.
pub struct DeviceHandle {
    pub pin: OutputPin,
    pub alarm: AlarmChannel,
}

} // verus!
