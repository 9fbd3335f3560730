use desktop_icons::desktop::{
    animated_icon_count, check_report, recycle_bin_index, validate_desktop_icons,
};
use desktop_icons::guid::Guid;

#[test]
fn desktop_needs_icons() {
    assert_eq!(
        validate_desktop_icons(&vec![]).unwrap_err().message(),
        "no desktop icons were found"
    );
}

#[test]
fn at_most_one_recycle_bin() {
    assert_eq!(validate_desktop_icons(&vec![false, true, false]).unwrap(), 1);
    assert_eq!(validate_desktop_icons(&vec![false, false]).unwrap(), 0);
    assert_eq!(
        validate_desktop_icons(&vec![true, false, true]).unwrap_err().message(),
        "expected at most one Recycle Bin icon, found 2"
    );
    let mut many = vec![true; 12];
    many.push(false);
    assert_eq!(
        validate_desktop_icons(&many).unwrap_err().message(),
        "expected at most one Recycle Bin icon, found 12"
    );
}

#[test]
fn recycle_bin_position() {
    assert_eq!(recycle_bin_index(&vec![false, false, true, true]), Some(2));
    assert_eq!(recycle_bin_index(&vec![false, false]), None);
    assert_eq!(recycle_bin_index(&vec![]), None);
}

#[test]
fn animated_icons() {
    assert_eq!(animated_icon_count(10, true), 9);
    assert_eq!(animated_icon_count(10, false), 10);
    assert_eq!(animated_icon_count(1, true), 0);
}

#[test]
fn check_reports() {
    let r = check_report(1, 0x5, 0x2);
    assert!(r.recycle_bin_found && r.auto_arrange && r.align_to_grid && r.custom_position);
    let r = check_report(0, 0x4, 0x1);
    assert!(!r.recycle_bin_found && !r.auto_arrange && r.align_to_grid && !r.custom_position);
    let r = check_report(0, 0x1, 0);
    assert!(r.auto_arrange && !r.align_to_grid);
}

#[test]
fn guid_fields() {
    let g = Guid::new(0x9ba05972, 0xf6a8, 0x11cf, [0xa4, 0x42, 0x00, 0xa0, 0xc9, 0x0a, 0x8f, 0x39]);
    assert_eq!(g.data1, 0x9ba05972);
    assert_eq!(g.data2, 0xf6a8);
    assert_eq!(g.data3, 0x11cf);
    assert_eq!(g.data4, [0xa4, 0x42, 0x00, 0xa0, 0xc9, 0x0a, 0x8f, 0x39]);
}
