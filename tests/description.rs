use freepps::manager::ModuleManager;
use freepps::mode::ModuleMode;
use freepps::prop::rewrite_description;

const PROP: &str = "id=FreePPS\nname=FreePPS\nversion=v1\ndescription=Force PPS charging\nauthor=someone\n";

#[test]
fn locked_tag_is_added() {
    let out = rewrite_description(PROP, ModuleMode::LockedPps);
    assert_eq!(
        out,
        "id=FreePPS\nname=FreePPS\nversion=v1\ndescription=[✅锁定PPS支持⚡] Force PPS charging\nauthor=someone\n"
    );
}

#[test]
fn each_mode_has_its_tag() {
    assert_eq!(
        rewrite_description("description=x", ModuleMode::Suspended),
        "description=[⏸️PPS已暂停💤] x"
    );
    assert_eq!(
        rewrite_description("description=x", ModuleMode::AutoProtocol),
        "description=[🔄协议自动识别💡] x"
    );
    assert_eq!(ModuleMode::LockedPps.prefix(), "[✅锁定PPS支持⚡] ");
}

#[test]
fn rewrite_twice_is_rewrite_once() {
    for mode in [ModuleMode::Suspended, ModuleMode::LockedPps, ModuleMode::AutoProtocol] {
        let once = rewrite_description(PROP, mode);
        let twice = rewrite_description(&once, mode);
        assert_eq!(once, twice);
    }
}

#[test]
fn known_tag_is_replaced_not_stacked() {
    let modes = [ModuleMode::Suspended, ModuleMode::LockedPps, ModuleMode::AutoProtocol];
    for old in modes {
        let tagged = format!("a=1\ndescription={}keep this\nb=2", old.prefix());
        for new in modes {
            let out = rewrite_description(&tagged, new);
            assert_eq!(out, format!("a=1\ndescription={}keep this\nb=2", new.prefix()));
        }
    }
}

#[test]
fn other_lines_and_breaks_are_kept() {
    assert_eq!(rewrite_description("", ModuleMode::LockedPps), "");
    assert_eq!(rewrite_description("a=1\n\nb=2\n", ModuleMode::LockedPps), "a=1\n\nb=2\n");
    assert_eq!(
        rewrite_description("xdescription=no\n description=no", ModuleMode::Suspended),
        "xdescription=no\n description=no"
    );
}

#[test]
fn empty_description_gets_tag() {
    assert_eq!(
        rewrite_description("description=\n", ModuleMode::Suspended),
        "description=[⏸️PPS已暂停💤] \n"
    );
}

#[test]
fn unknown_tag_is_kept() {
    assert_eq!(
        rewrite_description("description=[⚡✅PPS已支持] x", ModuleMode::LockedPps),
        "description=[✅锁定PPS支持⚡] [⚡✅PPS已支持] x"
    );
}

#[test]
fn manager_update_picks_mode_from_flags() {
    let m = ModuleManager::new().unwrap();
    assert_eq!(
        m.update_module_description(true, false, "description=d"),
        "description=[✅锁定PPS支持⚡] d"
    );
    assert_eq!(
        m.update_module_description(true, true, "description=d"),
        "description=[🔄协议自动识别💡] d"
    );
    assert_eq!(
        m.update_module_description(false, true, "description=d"),
        "description=[⏸️PPS已暂停💤] d"
    );
}
