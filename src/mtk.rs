//! The decisions of the MediaTek engine: it keeps the `usbpd_verifed` adapter node at
//! "1" and, in auto-protocol mode, gives the charger's own firmware a window in which to
//! set the node itself.
use vstd::prelude::*;
use crate::uevent::{ChargeStatus, Uevent};
use crate::text::same_text;

verus! {

/// The window in which the firmware may complete a MIPPS handshake on its own.
pub const HANDSHAKE_WINDOW_MS: u64 = 2700;

/// The pause between two reads of the adapter node during that window.
pub const HANDSHAKE_POLL_MS: u64 = 100;

/// The per-session state of the MediaTek engine.
#[derive(Clone, Copy, Debug, PartialEq, Eq, Structural)]
pub struct MtkEngine {
    pub charging_session_active: bool,
}

/// What the engine asks for after a uevent.
#[derive(Clone, Copy, Debug, PartialEq, Eq, Structural)]
pub struct MtkDecision {
    /// Read the adapter node and write "1" if it reads "0".
    pub reassert_verified: bool,
    /// Watch the adapter node through the handshake window (see `handshake_step`).
    pub watch_handshake: bool,
}

/// Where the handshake window stands after one read of the adapter node.
#[derive(Clone, Copy, Debug, PartialEq, Eq, Structural)]
pub enum HandshakeStep {
    /// The node read "1" inside the window: the firmware did a MIPPS handshake; nothing
    /// to do.
    External,
    /// The window is still open: sleep `HANDSHAKE_POLL_MS` and read again.
    Waiting,
    /// The window has closed with the node at "0": a PPS handshake; write "1".
    SetVerified,
    /// The window has closed and the node does not read "0": nothing to do.
    AlreadySet,
}

/// The state after a uevent: Charging opens the session, Discharging closes it.
pub open spec fn mtk_next(s: MtkEngine, ev: Uevent, auto_mode: bool) -> MtkEngine {
    if ev.status == Some(ChargeStatus::Discharging) {
        MtkEngine { charging_session_active: false }
    } else if ev.status == Some(ChargeStatus::Charging) {
        MtkEngine { charging_session_active: true }
    } else {
        s
    }
}

/// What the engine asks for after a uevent. Locked mode: re-assert the node on any
/// power-supply event and when Discharging ends an active session. Auto-protocol mode:
/// watch the handshake window when Charging opens a session.
pub open spec fn mtk_decision(s: MtkEngine, ev: Uevent, auto_mode: bool) -> MtkDecision {
    if !auto_mode {
        MtkDecision {
            reassert_verified: ev.is_power_supply_event
                || (ev.status == Some(ChargeStatus::Discharging) && s.charging_session_active),
            watch_handshake: false,
        }
    } else {
        MtkDecision {
            reassert_verified: false,
            watch_handshake: ev.status == Some(ChargeStatus::Charging) && !s.charging_session_active,
        }
    }
}

/// Where the window stands when the node reads `node` (trimmed) `elapsed` milliseconds
/// after it opened.
pub open spec fn handshake_of(elapsed: u64, node: Seq<char>) -> HandshakeStep {
    if elapsed < HANDSHAKE_WINDOW_MS {
        if node == "1"@ { HandshakeStep::External } else { HandshakeStep::Waiting }
    } else if node == "0"@ {
        HandshakeStep::SetVerified
    } else {
        HandshakeStep::AlreadySet
    }
}

impl MtkEngine {
    /// No session.
    pub fn new() -> (r: MtkEngine)
        ensures
            !r.charging_session_active,
    {
        MtkEngine { charging_session_active: false }
    }

    /// Takes one uevent, read while the module is enabled. A Discharging event always
    /// leaves no session active.
    pub fn on_uevent(&mut self, ev: &Uevent, auto_mode: bool) -> (r: MtkDecision)
        ensures
            r == mtk_decision(*old(self), *ev, auto_mode),
            *final(self) == mtk_next(*old(self), *ev, auto_mode),
            ev.status == Some(ChargeStatus::Discharging) ==> !final(self).charging_session_active,
    {
        let discharging = matches!(ev.status, Some(ChargeStatus::Discharging));
        let charging = matches!(ev.status, Some(ChargeStatus::Charging));
        let decision = if !auto_mode {
            MtkDecision {
                reassert_verified: ev.is_power_supply_event
                    || (discharging && self.charging_session_active),
                watch_handshake: false,
            }
        } else {
            MtkDecision {
                reassert_verified: false,
                watch_handshake: charging && !self.charging_session_active,
            }
        };
        if discharging {
            self.charging_session_active = false;
        } else if charging {
            self.charging_session_active = true;
        }
        decision
    }
}

/// Where the handshake window stands when the adapter node reads `node` (trimmed)
/// `elapsed_ms` milliseconds after it opened.
pub fn handshake_step(elapsed_ms: u64, node: &str) -> (r: HandshakeStep)
    ensures
        r == handshake_of(elapsed_ms, node@),
{
    if elapsed_ms < HANDSHAKE_WINDOW_MS {
        if same_text(node, "1") {
            HandshakeStep::External
        } else {
            HandshakeStep::Waiting
        }
    } else if same_text(node, "0") {
        HandshakeStep::SetVerified
    } else {
        HandshakeStep::AlreadySet
    }
}

} // verus!
