//! The decisions of the Qualcomm engine: it keeps the `pd_verifed` node at "1" and, in
//! auto-protocol mode, probes each new charging session and forces a MIPPS charger to
//! negotiate again by a suspend pulse.
use vstd::prelude::*;
use crate::uevent::{ChargeStatus, Uevent};
use crate::usb_type::{UsbProtocol, classify_usb_type, protocol_of};

verus! {

/// How long to wait after a charging session starts before reading the USB type.
pub const PROBE_DELAY_MS: u64 = 3270;

/// How long Charging events are ignored after a MIPPS pulse begins.
pub const BLACKOUT_MS: u64 = 5000;

/// The pause between the steps of the MIPPS pulse.
pub const PULSE_STEP_MS: u64 = 1000;

/// The per-session state of the Qualcomm engine.
#[derive(Clone, Copy, Debug, PartialEq, Eq, Structural)]
pub struct QcomEngine {
    pub charging_session_active: bool,
    pub mipps_session_handled: bool,
    /// Clock reading, in milliseconds, until which Charging events are ignored.
    pub ignore_charging_until: Option<u64>,
}

/// What the engine asks for after a uevent, in this order.
#[derive(Clone, Copy, Debug, PartialEq, Eq, Structural)]
pub struct QcomDecision {
    /// Read the `pd_verifed` node and write "1" if it reads "0".
    pub reassert_verified: bool,
    /// Wait `PROBE_DELAY_MS`, read the USB type node and hand it to `on_probe`.
    pub probe: bool,
    /// A session opened that was already handled as MIPPS: it is not probed again.
    pub already_handled: bool,
}

/// One step of the MIPPS pulse.
#[derive(Clone, Copy, Debug, PartialEq, Eq, Structural)]
pub enum PulseStep {
    /// Write "1" (suspend charging input) or "0" (resume) to the input-suspend node.
    SetInputSuspend(bool),
    /// Write "1" or "0" to the `pd_verifed` node.
    SetPdVerified(bool),
    /// Sleep this many milliseconds.
    Sleep(u64),
}

/// A uevent as the engine sees it: the message, whether the `auto` flag file existed, and
/// the clock reading in milliseconds.
#[derive(Clone, Copy, Debug, PartialEq, Eq, Structural)]
pub struct TimedUevent {
    pub event: Uevent,
    pub auto_mode: bool,
    pub now_ms: u64,
}

/// Whether Charging events are being ignored at clock reading `now`.
pub open spec fn in_blackout(until: Option<u64>, now: u64) -> bool {
    match until {
        Some(t) => now < t,
        None => false,
    }
}

/// The blackout after the clock has been read: it is dropped once it has passed.
pub open spec fn expire(until: Option<u64>, now: u64) -> Option<u64> {
    if in_blackout(until, now) { until } else { None }
}

pub open spec fn is_status(ev: Uevent, st: ChargeStatus) -> bool {
    ev.status == Some(st)
}

/// The state after a uevent.
///
/// Locked mode: Charging opens the session, Discharging closes it. Auto-protocol mode:
/// a passed blackout is dropped; Charging opens the session unless a blackout is on;
/// Discharging closes it. In both modes Discharging also forgets that a MIPPS session
/// was handled.
pub open spec fn qcom_next(s: QcomEngine, ev: Uevent, auto_mode: bool, now: u64) -> QcomEngine {
    let until = if auto_mode { expire(s.ignore_charging_until, now) } else { s.ignore_charging_until };
    let blocked = auto_mode && in_blackout(s.ignore_charging_until, now);
    if is_status(ev, ChargeStatus::Discharging) {
        QcomEngine {
            charging_session_active: false,
            mipps_session_handled: false,
            ignore_charging_until: until,
        }
    } else if is_status(ev, ChargeStatus::Charging) && !blocked {
        QcomEngine {
            charging_session_active: true,
            mipps_session_handled: s.mipps_session_handled,
            ignore_charging_until: until,
        }
    } else {
        QcomEngine {
            charging_session_active: s.charging_session_active,
            mipps_session_handled: s.mipps_session_handled,
            ignore_charging_until: until,
        }
    }
}

/// What the engine asks for after a uevent.
///
/// Locked mode: re-assert the node on any power-supply event and when Discharging ends an
/// active session; never probe. Auto-protocol mode: re-assert on a power-supply event
/// unless the session was handled as MIPPS or a blackout is on; probe when Charging
/// opens a session outside a blackout and that session has not been handled yet, and
/// say so when it has.
pub open spec fn qcom_decision(s: QcomEngine, ev: Uevent, auto_mode: bool, now: u64) -> QcomDecision {
    if !auto_mode {
        QcomDecision {
            reassert_verified: ev.is_power_supply_event
                || (is_status(ev, ChargeStatus::Discharging) && s.charging_session_active),
            probe: false,
            already_handled: false,
        }
    } else {
        let blocked = in_blackout(s.ignore_charging_until, now);
        let opens = is_status(ev, ChargeStatus::Charging) && !s.charging_session_active && !blocked;
        QcomDecision {
            reassert_verified: ev.is_power_supply_event && !s.mipps_session_handled && !blocked,
            probe: opens && !s.mipps_session_handled,
            already_handled: opens && s.mipps_session_handled,
        }
    }
}

/// The clock reading at which a blackout that begins at `now` ends.
pub open spec fn blackout_end(now: u64) -> u64 {
    if now <= u64::MAX - BLACKOUT_MS { (now + BLACKOUT_MS) as u64 } else { u64::MAX }
}

/// The state after the USB type was read as `usb_type` at clock reading `now`: MIPPS
/// marks the session handled, starts the blackout and closes the session, since the
/// pulse makes the charger start a new one; anything else changes nothing.
pub open spec fn qcom_after_probe(s: QcomEngine, usb_type: Seq<char>, now: u64) -> QcomEngine {
    if protocol_of(usb_type) == UsbProtocol::Mipps {
        QcomEngine {
            charging_session_active: false,
            mipps_session_handled: true,
            ignore_charging_until: Some(blackout_end(now)),
        }
    } else {
        s
    }
}

/// The state after a run of uevents, none of which asked for a probe.
pub open spec fn qcom_run(s: QcomEngine, evs: Seq<TimedUevent>) -> QcomEngine
    decreases evs.len(),
{
    if evs.len() == 0 {
        s
    } else {
        let e = evs.last();
        qcom_next(qcom_run(s, evs.drop_last()), e.event, e.auto_mode, e.now_ms)
    }
}

/// The steps of the MIPPS pulse: suspend the charging input, wait, clear `pd_verifed`,
/// wait, resume. Without an input-suspend node the whole pulse is skipped.
pub open spec fn pulse_plan(input_suspend_exists: bool) -> Seq<PulseStep> {
    if input_suspend_exists {
        seq![
            PulseStep::SetInputSuspend(true),
            PulseStep::Sleep(PULSE_STEP_MS),
            PulseStep::SetPdVerified(false),
            PulseStep::Sleep(PULSE_STEP_MS),
            PulseStep::SetInputSuspend(false),
        ]
    } else {
        Seq::empty()
    }
}

impl QcomEngine {
    /// No session, nothing handled, no blackout.
    pub fn new() -> (r: QcomEngine)
        ensures
            !r.charging_session_active,
            !r.mipps_session_handled,
            r.ignore_charging_until is None,
    {
        QcomEngine {
            charging_session_active: false,
            mipps_session_handled: false,
            ignore_charging_until: None,
        }
    }

    /// Takes one uevent, read while the module is enabled, at clock reading `now_ms`.
    pub fn on_uevent(&mut self, ev: &Uevent, auto_mode: bool, now_ms: u64) -> (r: QcomDecision)
        ensures
            r == qcom_decision(*old(self), *ev, auto_mode, now_ms),
            *final(self) == qcom_next(*old(self), *ev, auto_mode, now_ms),
    {
        let blocked = match self.ignore_charging_until {
            Some(t) => now_ms < t,
            None => false,
        };
        let discharging = matches!(ev.status, Some(ChargeStatus::Discharging));
        let charging = matches!(ev.status, Some(ChargeStatus::Charging));
        let decision = if !auto_mode {
            QcomDecision {
                reassert_verified: ev.is_power_supply_event
                    || (discharging && self.charging_session_active),
                probe: false,
                already_handled: false,
            }
        } else {
            let opens = charging && !self.charging_session_active && !blocked;
            QcomDecision {
                reassert_verified: ev.is_power_supply_event && !self.mipps_session_handled
                    && !blocked,
                probe: opens && !self.mipps_session_handled,
                already_handled: opens && self.mipps_session_handled,
            }
        };
        if auto_mode && !blocked {
            self.ignore_charging_until = None;
        }
        if discharging {
            self.charging_session_active = false;
            self.mipps_session_handled = false;
        } else if charging && !(auto_mode && blocked) {
            self.charging_session_active = true;
        }
        decision
    }

    /// Takes the contents of the USB type node, read after the probe delay at clock
    /// reading `now_ms`, and says which handshake it shows. On MIPPS the caller runs
    /// `mipps_pulse`.
    pub fn on_probe(&mut self, usb_type: &str, now_ms: u64) -> (r: UsbProtocol)
        ensures
            r == protocol_of(usb_type@),
            *final(self) == qcom_after_probe(*old(self), usb_type@, now_ms),
    {
        let protocol = classify_usb_type(usb_type);
        if matches!(protocol, UsbProtocol::Mipps) {
            self.mipps_session_handled = true;
            self.ignore_charging_until = Some(now_ms.saturating_add(BLACKOUT_MS));
            self.charging_session_active = false;
        }
        protocol
    }
}

/// The steps of the MIPPS pulse, given whether the input-suspend node exists. Whenever
/// the input is suspended, a later step resumes it.
pub fn mipps_pulse(input_suspend_exists: bool) -> (r: Vec<PulseStep>)
    ensures
        r@ == pulse_plan(input_suspend_exists),
        forall|i: int|
            0 <= i < r@.len() && r@[i] == PulseStep::SetInputSuspend(true) ==> exists|j: int|
                i < j < r@.len() && r@[j] == PulseStep::SetInputSuspend(false),
{
    let mut steps: Vec<PulseStep> = Vec::new();
    if input_suspend_exists {
        steps.push(PulseStep::SetInputSuspend(true));
        steps.push(PulseStep::Sleep(PULSE_STEP_MS));
        steps.push(PulseStep::SetPdVerified(false));
        steps.push(PulseStep::Sleep(PULSE_STEP_MS));
        steps.push(PulseStep::SetInputSuspend(false));
        assert(steps@ =~= pulse_plan(true));
        assert(steps@[4] == PulseStep::SetInputSuspend(false));
    } else {
        assert(steps@ =~= pulse_plan(false));
    }
    steps
}

/// A Discharging uevent ends the session and forgets a handled MIPPS session, whatever
/// the state and the mode.
pub proof fn lemma_discharging_clears(s: QcomEngine, ev: Uevent, auto_mode: bool, now: u64)
    requires
        ev.status == Some(ChargeStatus::Discharging),
    ensures
        !qcom_next(s, ev, auto_mode, now).charging_session_active,
        !qcom_next(s, ev, auto_mode, now).mipps_session_handled,
{
}

/// After a Charging uevent, then possibly a probe, then a Discharging uevent, both
/// session flags are false.
pub proof fn lemma_session_tracking(
    s: QcomEngine,
    charging: TimedUevent,
    probe: Option<(Seq<char>, u64)>,
    discharging: TimedUevent,
)
    requires
        charging.event.status == Some(ChargeStatus::Charging),
        discharging.event.status == Some(ChargeStatus::Discharging),
    ensures
        ({
            let s1 = qcom_next(s, charging.event, charging.auto_mode, charging.now_ms);
            let s2 = match probe {
                Some((usb_type, t)) => qcom_after_probe(s1, usb_type, t),
                None => s1,
            };
            let s3 = qcom_next(s2, discharging.event, discharging.auto_mode, discharging.now_ms);
            !s3.charging_session_active && !s3.mipps_session_handled
        }),
{
}

/// Once a MIPPS pulse begins at clock reading `t`, no uevent that arrives before
/// `t + BLACKOUT_MS` makes the engine probe again, whatever the events and modes are.
pub proof fn lemma_mipps_blackout(s: QcomEngine, usb_type: Seq<char>, t: u64, evs: Seq<TimedUevent>)
    requires
        protocol_of(usb_type) == UsbProtocol::Mipps,
        t <= u64::MAX - BLACKOUT_MS,
        forall|i: int| 0 <= i < evs.len() ==> #[trigger] evs[i].now_ms < t + BLACKOUT_MS,
    ensures
        forall|i: int|
            0 <= i < evs.len() ==> !(#[trigger] qcom_decision(
                qcom_run(qcom_after_probe(s, usb_type, t), evs.take(i)),
                evs[i].event,
                evs[i].auto_mode,
                evs[i].now_ms,
            )).probe,
{
    let s0 = qcom_after_probe(s, usb_type, t);
    assert forall|i: int| 0 <= i < evs.len() implies !(#[trigger] qcom_decision(
        qcom_run(s0, evs.take(i)),
        evs[i].event,
        evs[i].auto_mode,
        evs[i].now_ms,
    )).probe by {
        lemma_blackout_kept(s0, t, evs, i);
    }
}

/// Within the blackout window the blackout stays as the pulse set it.
proof fn lemma_blackout_kept(s0: QcomEngine, t: u64, evs: Seq<TimedUevent>, i: int)
    requires
        t <= u64::MAX - BLACKOUT_MS,
        s0.ignore_charging_until == Some((t + BLACKOUT_MS) as u64),
        0 <= i <= evs.len(),
        forall|k: int| 0 <= k < evs.len() ==> #[trigger] evs[k].now_ms < t + BLACKOUT_MS,
    ensures
        qcom_run(s0, evs.take(i)).ignore_charging_until == Some((t + BLACKOUT_MS) as u64),
    decreases i,
{
    if i > 0 {
        lemma_blackout_kept(s0, t, evs, i - 1);
        assert(evs.take(i).drop_last() =~= evs.take(i - 1));
        assert(evs.take(i).last() == evs[i - 1]);
    }
}

} // verus!
