use desktop_icons::error::Error;
use desktop_icons::layout::{
    custom_position_value, first_failure_of, LayoutSnapshot, RestoreSettings, ARRANGEMENT_FLAGS,
    FVO_CUSTOMPOSITION, FWF_AUTOARRANGE, FWF_SNAPTOGRID,
};

fn masked_update(current: u32, mask: u32, value: u32) -> u32 {
    (current & !mask) | (value & mask)
}

#[test]
fn arrangement_flags_are_auto_arrange_and_snap() {
    assert_eq!(ARRANGEMENT_FLAGS, FWF_AUTOARRANGE | FWF_SNAPTOGRID);
}

#[test]
fn custom_positioning_values() {
    assert_eq!(custom_position_value(true), FVO_CUSTOMPOSITION);
    assert_eq!(custom_position_value(false), 0);
}

#[test]
fn restore_settings_keep_the_original_bits() {
    let s = RestoreSettings::from_originals(0x0000_1235, 0x13);
    assert_eq!(s.folder_flags, 0x5);
    assert!(s.custom_position);
    let s = RestoreSettings::from_originals(0x0000_1230, 0x11);
    assert_eq!(s.folder_flags, 0x0);
    assert!(!s.custom_position);
    let s = RestoreSettings::from_originals(0x1, 0);
    assert_eq!(s.folder_flags, FWF_AUTOARRANGE);
}

#[test]
fn prepare_then_restore_gives_back_the_settings() {
    for original in [0u32, 1, 4, 5, 0x1230, 0xFFFF_FFFF, 0x8000_0004] {
        let prepared = masked_update(original, ARRANGEMENT_FLAGS, 0);
        assert_eq!(prepared & ARRANGEMENT_FLAGS, 0);
        let s = RestoreSettings::from_originals(original, 0);
        assert_eq!(masked_update(prepared, ARRANGEMENT_FLAGS, s.folder_flags), original);
    }
    for original in [0u32, 2, 3, 0x10, 0xFFFF_FFFF] {
        let prepared = masked_update(original, FVO_CUSTOMPOSITION, custom_position_value(true));
        let s = RestoreSettings::from_originals(0, original);
        let value = custom_position_value(s.custom_position);
        assert_eq!(masked_update(prepared, FVO_CUSTOMPOSITION, value), original);
    }
}

#[test]
fn first_failure_is_reported() {
    assert!(first_failure_of(vec![Ok(()), Ok(()), Ok(())]).is_ok());
    assert!(first_failure_of(vec![]).is_ok());
    let r = first_failure_of(vec![
        Ok(()),
        Err(Error::new("setting desktop folder flags failed (HRESULT 0x80004005)")),
        Err(Error::new("second")),
    ]);
    assert_eq!(
        r.unwrap_err().message(),
        "setting desktop folder flags failed (HRESULT 0x80004005)"
    );
    let r = first_failure_of(vec![Err(Error::new("first")), Ok(()), Err(Error::new("third"))]);
    assert_eq!(r.unwrap_err().message(), "first");
    let r = first_failure_of(vec![Ok(()), Ok(()), Err(Error::new("last"))]);
    assert_eq!(r.unwrap_err().message(), "last");
}

#[test]
fn restore_is_requested_once() {
    let mut snapshot = LayoutSnapshot::new(0x1235, 0x0);
    assert!(!snapshot.restored);
    let first = snapshot.begin_restore().unwrap();
    assert_eq!(first, RestoreSettings::from_originals(0x1235, 0x0));
    assert_eq!(first.folder_flags, 0x5);
    assert!(!first.custom_position);
    assert!(snapshot.restored);
    assert_eq!(snapshot.begin_restore(), None);
    assert_eq!(snapshot.original_folder_flags, 0x1235);
}
