use freepps::engine::{node_needs_reassert, InterruptStats, Interruption, PauseGate, PauseNotice};
use freepps::mtk::{handshake_step, HandshakeStep, MtkDecision, MtkEngine};
use freepps::qcom::{mipps_pulse, PulseStep, QcomDecision, QcomEngine, BLACKOUT_MS};
use freepps::uevent::{parse_uevent, ChargeStatus, Uevent};
use freepps::usb_type::UsbProtocol;

fn status(s: ChargeStatus) -> Uevent {
    Uevent { is_power_supply_event: true, pd_auth_related: false, status: Some(s) }
}

fn plain() -> Uevent {
    Uevent { is_power_supply_event: true, pd_auth_related: false, status: None }
}

#[test]
fn charging_then_discharging_clears_both_flags() {
    let mut e = QcomEngine::new();
    let d = e.on_uevent(&status(ChargeStatus::Charging), true, 1_000);
    assert!(d.probe);
    assert!(e.charging_session_active);
    assert_eq!(e.on_probe("[PD] PD_DRP PD_PPS", 4_270), UsbProtocol::Mipps);
    assert!(e.mipps_session_handled);
    e.on_uevent(&status(ChargeStatus::Discharging), true, 20_000);
    assert!(!e.charging_session_active);
    assert!(!e.mipps_session_handled);

    let mut locked = QcomEngine::new();
    locked.on_uevent(&status(ChargeStatus::Charging), false, 0);
    assert!(locked.charging_session_active);
    let d = locked.on_uevent(&status(ChargeStatus::Discharging), false, 10);
    assert!(d.reassert_verified);
    assert!(!locked.charging_session_active);
    assert!(!locked.mipps_session_handled);
}

#[test]
fn mipps_blackout_blocks_probe() {
    let mut e = QcomEngine::new();
    let start = 10_000;
    assert!(e.on_uevent(&status(ChargeStatus::Charging), true, start).probe);
    let t = start + 3_270;
    assert_eq!(e.on_probe("[PD] PD_DRP PD_PPS", t), UsbProtocol::Mipps);
    assert_eq!(e.ignore_charging_until, Some(t + BLACKOUT_MS));
    assert!(!e.charging_session_active);
    for dt in [0u64, 1, 2_000, 4_999] {
        let d = e.on_uevent(&status(ChargeStatus::Charging), true, t + dt);
        assert!(!d.probe, "probe at +{}", dt);
        assert!(!d.reassert_verified);
        assert!(!e.charging_session_active);
    }
    // After the window the session opens again, but a handled session is not probed.
    let d = e.on_uevent(&status(ChargeStatus::Charging), true, t + 5_000);
    assert_eq!(d, QcomDecision { reassert_verified: false, probe: false, already_handled: true });
    assert!(e.charging_session_active);
    assert_eq!(e.ignore_charging_until, None);
}

#[test]
fn pps_probe_changes_nothing() {
    let mut e = QcomEngine::new();
    assert!(e.on_uevent(&status(ChargeStatus::Charging), true, 0).probe);
    let before = e;
    assert_eq!(e.on_probe("PD_DRP [PD_PPS] PD", 3_270), UsbProtocol::Pps);
    assert_eq!(e, before);
    assert_eq!(e.on_probe("Unknown [SDP]", 3_270), UsbProtocol::Unrecognized);
    assert_eq!(e, before);
    // A repeated Charging event within the same session does not probe again.
    assert!(!e.on_uevent(&status(ChargeStatus::Charging), true, 4_000).probe);
}

#[test]
fn locked_mode_reasserts_on_power_supply_events() {
    let mut e = QcomEngine::new();
    let d = e.on_uevent(&plain(), false, 0);
    assert_eq!(d, QcomDecision { reassert_verified: true, probe: false, already_handled: false });
    let other = Uevent { is_power_supply_event: false, pd_auth_related: false, status: None };
    let d = e.on_uevent(&other, false, 0);
    assert_eq!(d, QcomDecision { reassert_verified: false, probe: false, already_handled: false });
    let d = e.on_uevent(&status(ChargeStatus::Charging), false, 0);
    assert!(!d.probe);
}

#[test]
fn auto_mode_reasserts_until_handled() {
    let mut e = QcomEngine::new();
    let d = e.on_uevent(&status(ChargeStatus::Full), true, 0);
    assert_eq!(d, QcomDecision { reassert_verified: true, probe: false, already_handled: false });
    e.on_uevent(&status(ChargeStatus::Charging), true, 0);
    e.on_probe("[PD] PD_PPS", 100);
    let d = e.on_uevent(&status(ChargeStatus::Full), true, 100_000);
    assert!(!d.reassert_verified);
}

#[test]
fn pulse_suspends_then_resumes() {
    let steps = mipps_pulse(true);
    assert_eq!(
        steps,
        vec![
            PulseStep::SetInputSuspend(true),
            PulseStep::Sleep(1000),
            PulseStep::SetPdVerified(false),
            PulseStep::Sleep(1000),
            PulseStep::SetInputSuspend(false),
        ]
    );
    assert!(mipps_pulse(false).is_empty());
}

#[test]
fn mtk_locked_and_auto() {
    let mut e = MtkEngine::new();
    let d = e.on_uevent(&status(ChargeStatus::Charging), false);
    assert_eq!(d, MtkDecision { reassert_verified: true, watch_handshake: false });
    assert!(e.charging_session_active);
    let d = e.on_uevent(&status(ChargeStatus::Discharging), false);
    assert!(d.reassert_verified);
    assert!(!e.charging_session_active);

    let d = e.on_uevent(&status(ChargeStatus::Charging), true);
    assert_eq!(d, MtkDecision { reassert_verified: false, watch_handshake: true });
    let d = e.on_uevent(&status(ChargeStatus::Charging), true);
    assert!(!d.watch_handshake);
    e.on_uevent(&status(ChargeStatus::Discharging), true);
    assert!(!e.charging_session_active);
}

#[test]
fn mtk_handshake_window() {
    assert_eq!(handshake_step(0, "0"), HandshakeStep::Waiting);
    assert_eq!(handshake_step(2_600, "1"), HandshakeStep::External);
    assert_eq!(handshake_step(2_699, ""), HandshakeStep::Waiting);
    assert_eq!(handshake_step(2_700, "0"), HandshakeStep::SetVerified);
    assert_eq!(handshake_step(2_700, "1"), HandshakeStep::AlreadySet);
    assert_eq!(handshake_step(9_000, ""), HandshakeStep::AlreadySet);
}

#[test]
fn node_reassert_only_on_zero() {
    assert!(node_needs_reassert("0"));
    assert!(!node_needs_reassert("1"));
    assert!(!node_needs_reassert(""));
    assert!(!node_needs_reassert("00"));
}

#[test]
fn paused_is_logged_once() {
    let mut g = PauseGate::new();
    assert_eq!(g.observe(true), PauseNotice::Nothing);
    assert_eq!(g.observe(false), PauseNotice::Paused);
    assert_eq!(g.observe(false), PauseNotice::Nothing);
    assert_eq!(g.observe(false), PauseNotice::Nothing);
    assert_eq!(g.observe(true), PauseNotice::Resumed);
    assert_eq!(g.observe(true), PauseNotice::Nothing);
}

#[test]
fn interruptions_reported_every_ten_hours() {
    let ten_hours = 10 * 60 * 60 * 1000;
    let mut s = InterruptStats::new(0);
    assert_eq!(s.record(Interruption::Interrupted, 1), None);
    assert_eq!(s.record(Interruption::TryAgain, 2), None);
    assert_eq!(s.record(Interruption::Interrupted, ten_hours - 1), None);
    assert_eq!(s.pending(), Some((2, 1)));
    assert_eq!(s.record(Interruption::Interrupted, ten_hours), Some((3, 1)));
    assert_eq!(s.pending(), None);
    assert_eq!(s.last_report_ms, ten_hours);
}

#[test]
fn parsed_event_drives_engine() {
    let mut e = QcomEngine::new();
    let ev = parse_uevent("ACTION=change\0POWER_SUPPLY_STATUS=Charging\0POWER_SUPPLY_TYPE=USB_PD\0\0");
    let d = e.on_uevent(&ev, true, 0);
    assert_eq!(d, QcomDecision { reassert_verified: true, probe: true, already_handled: false });
}
