//! The assembled system: the shared device cell, the interrupt handler's
//! state, and the interrupt mask, tied together by the invariant [`BlinkSystem::wf`].
//!
//! [`BlinkSystem::init`] performs the startup sequence in the documented
//! order — arm the first interval, enable the alarm's interrupt
//! notification, install the device pair into the cell, and only then
//! unmask the interrupt source — and [`BlinkSystem::on_alarm_firing`] is the
//! interrupt service routine, which can only run once the source is
//! unmasked. The invariant holds at every rest point (whenever no handler
//! is executing): the cell is occupied, and the pin's toggle count and the
//! divider counter are exactly determined by the number of serviced
//! firings.

use vstd::prelude::*;

use crate::ALARM_INTERVAL_US;
use crate::DIVIDER_THRESHOLD;
use crate::blink_period;
use crate::device_cell::DeviceCell;
use crate::handler::ToggleHandler;
use crate::handler::serviced;
use crate::hardware::AlarmChannel;
use crate::hardware::DeviceHandle;
use crate::hardware::OutputPin;

verus! {

/// The whole system at rest: everything the two execution contexts (the
/// idle main context and the interrupt context) can reach.
pub struct BlinkSystem {
    /// The single synchronization point between the two contexts.
    pub cell: DeviceCell,
    /// The interrupt handler's exclusively-owned state.
    pub handler: ToggleHandler,
    /// Whether the alarm interrupt line is unmasked at the interrupt
    /// controller. A firing can only be delivered while this is set.
    pub irq_unmasked: bool,
    /// Toggle requests the pin had already received when the system was
    /// initialized (ghost baseline for the divider law).
    pub base_toggles: Ghost<u64>,
    /// The pin's level when the system was initialized (ghost baseline for
    /// the blink law).
    pub base_level: Ghost<bool>,
    /// Schedule requests the alarm had already received when the system was
    /// initialized, the initial arming included (ghost baseline for the
    /// re-arm law).
    pub base_schedules: Ghost<u64>,
}

impl BlinkSystem {
    /// The rest-point invariant. Beyond well-formedness of the handler it
    /// pins down the observable hardware state as a function of the number
    /// of serviced firings: every firing issued exactly one re-arm request,
    /// and the pin received exactly one toggle request per full blink
    /// period.
    pub open spec fn wf(self) -> bool {
        &&& self.handler.inv()
        &&& self.cell.contents() matches Some(h) && {
            &&& h.alarm.interrupt_enabled
            &&& h.alarm.schedule_requests == self.base_schedules@ + self.handler.fired@
            &&& h.pin.toggle_requests == self.base_toggles@ + self.handler.fired@
                / blink_period()
            &&& (!h.pin.fail_toggle ==> h.pin.level == (self.base_level@ == ((
            self.handler.fired@ / blink_period()) % 2 == 0)))
            &&& (h.pin.fail_toggle ==> h.pin.level == self.base_level@)
        }
    }

    /// The request counters of the installed devices have room for one more
    /// request — a machine limit, not a property of the design.
    pub open spec fn counters_in_range(self) -> bool {
        self.cell.contents() matches Some(h) ==> h.alarm.schedule_requests < u64::MAX
            && h.pin.toggle_requests < u64::MAX
    }

    /// Unmask the alarm's interrupt line. Callable only once the device
    /// pair is installed and its interrupt notification enabled, so no
    /// firing can ever be delivered to a half-initialized system.
    pub fn unmask(&mut self)
        requires
            old(self).cell.contents() matches Some(h) && h.alarm.interrupt_enabled,
        ensures
            *final(self) == (BlinkSystem { irq_unmasked: true, ..*old(self) }),
    {
        self.irq_unmasked = true;
    }

    /// Run the startup sequence on freshly acquired devices: arm the alarm
    /// for one interval (a rejected request is discarded — degraded mode),
    /// enable its interrupt notification, install the pair into the cell,
    /// and unmask the interrupt source, in that order.
    pub fn init(pin: OutputPin, alarm: AlarmChannel) -> (s: BlinkSystem)
        requires
            alarm.schedule_requests < u64::MAX,
        ensures
            s.wf(),
            s.irq_unmasked,
            s.handler.count == 0,
            s.handler.fired@ == 0,
            s.base_toggles@ == pin.toggle_requests,
            s.base_level@ == pin.level,
            s.base_schedules@ == alarm.schedule_requests + 1,
            s.cell.contents() matches Some(h) && {
                &&& h.pin == pin
                &&& h.alarm.schedule_requests == alarm.schedule_requests + 1
                &&& h.alarm.interrupt_enabled
                &&& h.alarm.pending == alarm.pending
                &&& h.alarm.fail_schedule == alarm.fail_schedule
                &&& (!alarm.fail_schedule ==> h.alarm.scheduled == Some(ALARM_INTERVAL_US))
                &&& (alarm.fail_schedule ==> h.alarm.scheduled == alarm.scheduled)
            },
    {
        let ghost base_toggles: u64 = pin.toggle_requests;
        let ghost base_level: bool = pin.level;
        let mut alarm = alarm;
        let _ = alarm.schedule(ALARM_INTERVAL_US);
        alarm.enable_interrupt();
        let ghost base_schedules: u64 = alarm.schedule_requests;
        let mut cell = DeviceCell::empty();
        cell.install(DeviceHandle { pin, alarm });
        let mut s = BlinkSystem {
            cell,
            handler: ToggleHandler::new(),
            irq_unmasked: false,
            base_toggles: Ghost(base_toggles),
            base_level: Ghost(base_level),
            base_schedules: Ghost(base_schedules),
        };
        proof {
            assert(0nat / blink_period() == 0 && 0nat % 2 == 0) by (nonlinear_arith);
        }
        s.unmask();
        s
    }

    /// The hardware timer reaches the armed deadline: the one-shot schedule
    /// is consumed and the expiry flag latched. This can happen whether or
    /// not the interrupt line is unmasked — an expiry while masked stays
    /// latched. Nothing but the alarm changes.
    pub fn alarm_expired(&mut self)
        ensures
            final(self).handler == old(self).handler,
            final(self).irq_unmasked == old(self).irq_unmasked,
            final(self).base_toggles == old(self).base_toggles,
            final(self).base_level == old(self).base_level,
            final(self).base_schedules == old(self).base_schedules,
            old(self).cell.contents() is None ==> *final(self) == *old(self),
            old(self).cell.contents() matches Some(h0) ==> final(self).cell.contents()
                matches Some(h1) && {
                &&& h1.pin == h0.pin
                &&& (h0.alarm.scheduled is Some ==> h1.alarm == (AlarmChannel {
                    scheduled: None,
                    pending: true,
                    ..h0.alarm
                }))
                &&& (h0.alarm.scheduled is None ==> h1.alarm == h0.alarm)
            },
            old(self).wf() ==> final(self).wf(),
            old(self).counters_in_range() ==> final(self).counters_in_range(),
    {
        match self.cell.withdraw() {
            None => {},
            Some(mut handle) => {
                handle.alarm.expire();
                self.cell.restore(handle);
            },
        }
    }

    /// The interrupt service routine for the alarm line: one delivered
    /// firing, serviced to completion.
    ///
    /// Requires the rest-point invariant and an unmasked line, and restores
    /// the invariant: exactly one re-arm request is issued before the
    /// routine returns, the expiry flag ends cleared, the device pair ends
    /// back in the cell, and the pin is toggled exactly on every
    /// `blink_period()`-th serviced firing — also when the re-arm or the
    /// toggle fails.
    pub fn on_alarm_firing(&mut self)
        requires
            old(self).wf(),
            old(self).irq_unmasked,
            old(self).counters_in_range(),
        ensures
            final(self).wf(),
            final(self).irq_unmasked == old(self).irq_unmasked,
            final(self).base_toggles == old(self).base_toggles,
            final(self).base_level == old(self).base_level,
            final(self).base_schedules == old(self).base_schedules,
            final(self).handler.fired@ == old(self).handler.fired@ + 1,
            old(self).cell.contents() matches Some(h0) ==> final(self).cell.contents()
                matches Some(h1) && serviced(h0, h1, old(self).handler.count),
    {
        proof {
            let f = old(self).handler.fired@;
            let p = blink_period();
            if old(self).handler.count == DIVIDER_THRESHOLD {
                assert((f + 1) / p == f / p + 1) by (nonlinear_arith)
                    requires
                        p == 10 && f % 10 == 9,
                ;
                let t = f / p;
                assert(((t + 1) % 2 == 0) == (t % 2 == 1)) by (nonlinear_arith);
            } else {
                assert((f + 1) / p == f / p) by (nonlinear_arith)
                    requires
                        p == 10 && f % 10 < 9,
                ;
            }
        }
        self.handler.service(&mut self.cell);
    }
}

/// Divider correctness, at any rest point: the pin has received exactly one
/// toggle request per full blink period of serviced firings — `fired /
/// blink_period()` requests beyond its baseline — and the divider counter
/// equals `fired % blink_period()`.
pub proof fn lemma_divider_correctness(s: BlinkSystem)
    requires
        s.wf(),
    ensures
        s.cell.contents() matches Some(h) && h.pin.toggle_requests == s.base_toggles@
            + s.handler.fired@ / blink_period(),
        s.handler.count as nat == s.handler.fired@ % blink_period(),
{
}

/// The blink law, at any rest point: while the pin accepts toggle requests,
/// its level differs from its initial level exactly when an odd number of
/// full blink periods of firings has been serviced — the level changes state
/// once every `blink_period()` firings, never in between.
pub proof fn lemma_blink_level(s: BlinkSystem)
    requires
        s.wf(),
        s.cell.contents() matches Some(h) && !h.pin.fail_toggle,
    ensures
        s.cell.contents() matches Some(h) && h.pin.level == (s.base_level@ == ((
        s.handler.fired@ / blink_period()) % 2 == 0)),
{
}

/// No loss of ownership: at any rest point — in particular before a next
/// firing can be serviced — the device pair stands in the cell, and every
/// firing issued exactly one re-arm request beyond the baseline.
pub proof fn lemma_ownership_restored(s: BlinkSystem)
    requires
        s.wf(),
    ensures
        s.cell.contents() matches Some(h) && h.alarm.schedule_requests == s.base_schedules@
            + s.handler.fired@,
{
}

} // verus!
