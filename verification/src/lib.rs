//! A periodic output-pin blinker driven by a one-shot, re-armable hardware
//! alarm.
//!
//! The system owns exactly one pair of devices — an output pin and an alarm
//! channel — packaged as a [`hardware::DeviceHandle`]. The pair rests in a
//! single-slot [`device_cell::DeviceCell`], is withdrawn by the interrupt
//! handler on each alarm firing, serviced, and restored before the handler
//! returns. A software divider toggles the pin once every
//! `DIVIDER_THRESHOLD + 1` firings, so the pin blinks with a period of
//! `(DIVIDER_THRESHOLD + 1) * ALARM_INTERVAL_US` microseconds.
//!
//! The hardware boundary (pin, alarm channel, interrupt mask) is modelled by
//! plain-value device types whose state is exactly what the control logic
//! reads and writes; the board-support layer that hands out the real devices
//! is an external collaborator and out of scope.

use vstd::prelude::*;

pub mod device_cell;
pub mod handler;
pub mod hardware;
pub mod system;

verus! {

/// Period between alarm firings, in microseconds: the alarm is re-armed for
/// this duration on every firing.
pub const ALARM_INTERVAL_US: u32 = 10000;

/// The divider counter counts firings from 0 up to this threshold; the firing
/// that finds the counter at the threshold resets it and toggles the pin, so
/// the pin is toggled once every `DIVIDER_THRESHOLD + 1` firings.
pub const DIVIDER_THRESHOLD: u8 = 9;

/// Number of alarm firings per pin toggle.
pub open spec fn blink_period() -> nat {
    (DIVIDER_THRESHOLD + 1) as nat
}

} // verus!
