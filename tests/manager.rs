use freepps::error::FreePPSError;
use freepps::manager::{FreeChange, ModuleManager, StartupPlan};
use freepps::mode::ModuleMode;
use freepps::sysfs::{
    flag_value, set_input_suspend, PdAdapterVerifier, PdVerifier, SysfsWrite, INPUT_SUSPEND_PATH,
    PD_ADAPTER_VERIFIED_PATH, PD_VERIFIED_PATH,
};

#[test]
fn startup_without_free_enables() {
    let m = ModuleManager::new().unwrap();
    let plan = m.initialize_module(false, "", false, false);
    assert_eq!(
        plan,
        StartupPlan {
            create_free: true,
            remove_disable: false,
            mode: ModuleMode::LockedPps,
            enable_nodes: true,
        }
    );
}

#[test]
fn startup_follows_free_and_auto() {
    let m = ModuleManager::new().unwrap();
    let plan = m.initialize_module(true, "1", true, true);
    assert_eq!(
        plan,
        StartupPlan {
            create_free: false,
            remove_disable: true,
            mode: ModuleMode::AutoProtocol,
            enable_nodes: true,
        }
    );
    let plan = m.initialize_module(true, "0", false, true);
    assert_eq!(plan.mode, ModuleMode::Suspended);
    assert!(!plan.enable_nodes);
    let plan = m.initialize_module(true, "garbage", false, false);
    assert_eq!(plan.mode, ModuleMode::Suspended);
}

#[test]
fn free_change_is_idempotent() {
    let mut m = ModuleManager::new().unwrap();
    assert_eq!(m.last_state, None);
    assert_eq!(
        m.handle_free_file_change("0", false),
        Some(FreeChange { mode: ModuleMode::Suspended, reset_nodes: true })
    );
    assert_eq!(m.handle_free_file_change("0", false), None);
    assert_eq!(m.handle_free_file_change("0", true), None);
    assert_eq!(
        m.handle_free_file_change("1", false),
        Some(FreeChange { mode: ModuleMode::LockedPps, reset_nodes: false })
    );
    assert_eq!(
        m.handle_free_file_change("1", true),
        Some(FreeChange { mode: ModuleMode::AutoProtocol, reset_nodes: false })
    );
    assert_eq!(m.handle_free_file_change("1", true), None);
}

#[test]
fn unknown_free_content_asks_nothing() {
    let mut m = ModuleManager::new().unwrap();
    assert_eq!(m.handle_free_file_change("1", false).map(|c| c.mode), Some(ModuleMode::LockedPps));
    assert_eq!(m.handle_free_file_change("yes", false), None);
    assert_eq!(m.last_state, None);
    assert_eq!(m.handle_free_file_change("1", false).map(|c| c.mode), Some(ModuleMode::LockedPps));
}

#[test]
fn disable_file_sets_free() {
    let m = ModuleManager::new().unwrap();
    assert_eq!(m.handle_disable_file_change(true), "0");
    assert_eq!(m.handle_disable_file_change(false), "1");
}

#[test]
fn missing_node_is_skipped() {
    let v = PdVerifier::new().unwrap();
    assert_eq!(v.set_pd_verified(true, false), SysfsWrite::Missing { path: PD_VERIFIED_PATH });
    assert_eq!(
        v.set_pd_verified(true, true),
        SysfsWrite::Write { path: PD_VERIFIED_PATH, value: "1" }
    );
    assert_eq!(
        v.set_pd_verified(false, true),
        SysfsWrite::Write { path: PD_VERIFIED_PATH, value: "0" }
    );
    let a = PdAdapterVerifier::new().unwrap();
    assert_eq!(
        a.set_pd_adapter_verified(false, true),
        SysfsWrite::Write { path: PD_ADAPTER_VERIFIED_PATH, value: "0" }
    );
    assert_eq!(
        a.set_pd_adapter_verified(true, false),
        SysfsWrite::Missing { path: PD_ADAPTER_VERIFIED_PATH }
    );
    assert_eq!(
        set_input_suspend(true, true),
        SysfsWrite::Write { path: INPUT_SUSPEND_PATH, value: "1" }
    );
    assert_eq!(flag_value(false), "0");
    assert_eq!(PD_VERIFIED_PATH, "/sys/class/qcom-battery/pd_verifed");
    assert_eq!(PD_ADAPTER_VERIFIED_PATH, "/sys/class/Charging_Adapter/pd_adapter/usbpd_verifed");
}

#[test]
fn error_messages() {
    assert_eq!(
        FreePPSError::FileOperation("denied".to_string()).message(),
        "系统文件操作失败: denied"
    );
    assert_eq!(FreePPSError::InotifyError("no fd".to_string()).message(), "inotify监控失败: no fd");
    assert_eq!(
        FreePPSError::PdVerificationFailed("still 0".to_string()).message(),
        "PD验证失败: still 0"
    );
}

#[test]
fn free_content_enables() {
    assert!(freepps::manager::free_enabled("1"));
    assert!(!freepps::manager::free_enabled("0"));
    assert!(!freepps::manager::free_enabled(""));
    assert!(!freepps::manager::free_enabled("11"));
}
