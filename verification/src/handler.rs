//! The periodic toggle handler: the run-to-completion body of the alarm
//! interrupt service routine.
//!
//! On each firing the handler withdraws the device pair from the shared
//! cell, clears the latched expiry flag, re-arms the alarm for the next
//! interval, advances the divider counter — toggling the pin on every
//! `DIVIDER_THRESHOLD + 1`-th firing — and restores the pair, in that order.
//! A rejected re-arm or a failed toggle is discarded and never stops the
//! servicing. An empty cell makes the whole firing a silent no-op.

use vstd::prelude::*;

use crate::ALARM_INTERVAL_US;
use crate::DIVIDER_THRESHOLD;
use crate::blink_period;
use crate::device_cell::DeviceCell;
use crate::hardware::DeviceHandle;
use crate::hardware::OutputPin;

verus! {

/// Relation between a pin before and after one toggle request: the request
/// is counted, and the level flips exactly when the pin is not in its
/// failure mode.
pub open spec fn toggled(p0: OutputPin, p1: OutputPin) -> bool {
    &&& p1.toggle_requests == p0.toggle_requests + 1
    &&& p1.fail_toggle == p0.fail_toggle
    &&& (!p0.fail_toggle ==> p1.level == !p0.level)
    &&& (p0.fail_toggle ==> p1.level == p0.level)
}

/// Relation between the device pair before and after one serviced firing,
/// for a divider counter that stood at `count0` when the firing arrived:
/// the expiry flag is cleared, exactly one re-arm request for the next
/// interval is issued (armed unless the alarm rejects it), and the pin is
/// toggled exactly when the counter stood at the threshold.
pub open spec fn serviced(h0: DeviceHandle, h1: DeviceHandle, count0: u8) -> bool {
    &&& !h1.alarm.pending
    &&& h1.alarm.schedule_requests == h0.alarm.schedule_requests + 1
    &&& h1.alarm.interrupt_enabled == h0.alarm.interrupt_enabled
    &&& h1.alarm.fail_schedule == h0.alarm.fail_schedule
    &&& (!h0.alarm.fail_schedule ==> h1.alarm.scheduled == Some(ALARM_INTERVAL_US))
    &&& (h0.alarm.fail_schedule ==> h1.alarm.scheduled == h0.alarm.scheduled)
    &&& (count0 == DIVIDER_THRESHOLD ==> toggled(h0.pin, h1.pin))
    &&& (count0 < DIVIDER_THRESHOLD ==> h1.pin == h0.pin)
}

/// The interrupt handler's own state: the divider counter, owned exclusively
/// by the handler, plus a ghost count of the firings it has serviced, over
/// which the divider law is stated.
pub struct ToggleHandler {
    /// Divider counter: incremented once per serviced firing, reset to zero
    /// on the firing that toggles the pin.
    pub count: u8,
    /// Number of firings this handler has serviced (ghost).
    pub fired: Ghost<nat>,
}

impl ToggleHandler {
    /// The divider counter always equals the number of serviced firings
    /// modulo the blink period, and in particular never exceeds the
    /// threshold.
    pub open spec fn inv(self) -> bool {
        &&& self.count <= DIVIDER_THRESHOLD
        &&& self.count as nat == self.fired@ % blink_period()
    }

    /// A fresh handler that has serviced nothing.
    pub fn new() -> (h: ToggleHandler)
        ensures
            h.inv(),
            h.count == 0,
            h.fired@ == 0,
    {
        proof {
            assert(0nat % blink_period() == 0) by (nonlinear_arith);
        }
        ToggleHandler { count: 0, fired: Ghost(0nat) }
    }

    /// Service one alarm firing.
    ///
    /// If the cell is empty the firing is a silent no-op (defensive: under
    /// the documented startup ordering this cannot happen). Otherwise the
    /// handle is withdrawn, serviced as [`serviced`] describes, and restored
    /// before the handler returns — the cell is occupied again and no firing
    /// loses the handle, whether or not the re-arm or the toggle failed.
    pub fn service(&mut self, cell: &mut DeviceCell)
        requires
            old(self).inv(),
            old(cell).contents() matches Some(h0) ==> h0.alarm.schedule_requests < u64::MAX
                && h0.pin.toggle_requests < u64::MAX,
        ensures
            final(self).inv(),
            old(cell).contents() is None ==> *final(cell) == *old(cell)
                && *final(self) == *old(self),
            old(cell).contents() matches Some(h0) ==> {
                &&& final(cell).contents() matches Some(h1) && serviced(h0, h1, old(self).count)
                &&& final(self).fired@ == old(self).fired@ + 1
                &&& (old(self).count == DIVIDER_THRESHOLD ==> final(self).count == 0)
                &&& (old(self).count < DIVIDER_THRESHOLD ==> final(self).count == old(
                    self,
                ).count + 1)
            },
    {
        let taken = cell.withdraw();
        match taken {
            None => {},
            Some(mut handle) => {
                handle.alarm.clear_interrupt();
                let _ = handle.alarm.schedule(ALARM_INTERVAL_US);
                if self.count < DIVIDER_THRESHOLD {
                    self.count = self.count + 1;
                } else {
                    self.count = 0;
                    let _ = handle.pin.toggle();
                }
                self.fired = Ghost(self.fired@ + 1);
                proof {
                    let f = old(self).fired@;
                    assert(blink_period() == 10);
                    if old(self).count == DIVIDER_THRESHOLD {
                        assert((f + 1) % 10 == 0) by (nonlinear_arith)
                            requires
                                f % 10 == 9,
                        ;
                    } else {
                        assert((f + 1) % 10 == f % 10 + 1) by (nonlinear_arith)
                            requires
                                f % 10 < 9,
                        ;
                    }
                }
                cell.restore(handle);
            },
        }
    }
}

} // verus!
