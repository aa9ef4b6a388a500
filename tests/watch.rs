use freepps::watch::{
    parse_inotify_records, scan_free_events, DisableWatch, FreeWatchScan, IN_CLOSE_WRITE, IN_CREATE,
    IN_DELETE, IN_MODIFY,
};

fn record(wd: i32, mask: u32, cookie: u32, name: &[u8]) -> Vec<u8> {
    let mut b = Vec::new();
    b.extend_from_slice(&wd.to_le_bytes());
    b.extend_from_slice(&mask.to_le_bytes());
    b.extend_from_slice(&cookie.to_le_bytes());
    b.extend_from_slice(&(name.len() as u32).to_le_bytes());
    b.extend_from_slice(name);
    b
}

#[test]
fn records_are_read_in_order() {
    let mut buf = record(1, IN_MODIFY, 0, b"");
    buf.extend(record(2, IN_CREATE, 7, b"auto\0\0\0\0"));
    buf.extend(record(-1, 0x8000_0000, 0x1234_5678, b""));
    let recs = parse_inotify_records(&buf);
    assert_eq!(recs.len(), 3);
    assert_eq!(recs[0].wd, 1);
    assert_eq!(recs[0].mask, IN_MODIFY);
    assert!(recs[0].name.is_empty());
    assert_eq!(recs[1].wd, 2);
    assert_eq!(recs[1].cookie, 7);
    assert_eq!(recs[1].name, b"auto\0\0\0\0".to_vec());
    assert_eq!(recs[2].wd, -1);
    assert_eq!(recs[2].mask, 0x8000_0000);
    assert_eq!(recs[2].cookie, 0x1234_5678);
}

#[test]
fn truncated_record_ends_the_batch() {
    let mut buf = record(1, IN_CLOSE_WRITE, 0, b"");
    let mut cut = record(2, IN_CREATE, 0, b"auto\0\0\0\0");
    cut.truncate(20);
    buf.extend(cut);
    let recs = parse_inotify_records(&buf);
    assert_eq!(recs.len(), 1);
    assert!(parse_inotify_records(&[0u8; 15]).is_empty());
    assert!(parse_inotify_records(&[]).is_empty());
}

#[test]
fn free_watch_scan() {
    let mut buf = record(1, IN_MODIFY, 0, b"");
    buf.extend(record(1, IN_CLOSE_WRITE, 0, b""));
    let recs = parse_inotify_records(&buf);
    assert_eq!(
        scan_free_events(&recs, b"auto"),
        FreeWatchScan { free_changed: true, auto_changed: false }
    );

    let mut buf = record(2, IN_DELETE, 0, b"auto\0\0\0\0");
    buf.extend(record(2, IN_CREATE, 0, b"autox\0\0\0"));
    let recs = parse_inotify_records(&buf);
    assert_eq!(
        scan_free_events(&recs, b"auto"),
        FreeWatchScan { free_changed: false, auto_changed: true }
    );

    let recs = parse_inotify_records(&record(2, IN_CREATE, 0, b"disable\0"));
    assert_eq!(
        scan_free_events(&recs, b"auto"),
        FreeWatchScan { free_changed: false, auto_changed: false }
    );
    let recs = parse_inotify_records(&record(2, IN_MODIFY, 0, b"auto\0\0\0\0"));
    assert!(!scan_free_events(&recs, b"auto").auto_changed);
}

#[test]
fn disable_watch_reports_changes_only() {
    let mut w = DisableWatch::new(false);
    assert_eq!(w.on_directory_event(false), None);
    assert_eq!(w.on_directory_event(true), Some(true));
    assert_eq!(w.on_directory_event(true), None);
    assert_eq!(w.on_directory_event(false), Some(false));
    assert!(!w.disable_exists);
}
