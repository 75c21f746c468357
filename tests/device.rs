use tix::device::{mode_of, scan_step, Mode, NotSupported, ScanStep};

#[test]
fn development_ids_give_development_mode() {
    assert_eq!(mode_of(0x1B8E, 0xC003), Ok(Mode::Development));
}

#[test]
fn normal_ids_give_normal_mode() {
    assert_eq!(mode_of(0x18D1, 0x4E40), Ok(Mode::Normal));
}

#[test]
fn other_ids_are_not_supported() {
    assert_eq!(mode_of(0x18D1, 0xC003), Err(NotSupported));
    assert_eq!(mode_of(0x1234, 0x5678), Err(NotSupported));
}

#[test]
fn scan_takes_skips_and_stops() {
    assert_eq!(scan_step(Some((0x1B8E, 0xC003))), ScanStep::Take);
    assert_eq!(scan_step(Some((0x18D1, 0x4E40))), ScanStep::Take);
    assert_eq!(scan_step(Some((0x1B8E, 0x4E40))), ScanStep::Skip);
    assert_eq!(scan_step(None), ScanStep::Stop);
}
