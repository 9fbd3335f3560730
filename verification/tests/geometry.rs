use desktop_icons::geometry::{same_rect, top_slots, Point, Rect};

fn p(x: i32, y: i32) -> Point {
    Point { x, y }
}

const PRIMARY: Rect = Rect { left: 0, top: 0, right: 1920, bottom: 1040 };
const NARROW: Rect = Rect { left: 1920, top: 0, right: 2000, bottom: 1040 };

#[test]
fn same_rect_compares_all_edges() {
    assert!(same_rect(PRIMARY, PRIMARY));
    assert!(!same_rect(PRIMARY, NARROW));
    assert!(!same_rect(PRIMARY, Rect { bottom: 1080, ..PRIMARY }));
    assert!(!same_rect(PRIMARY, Rect { top: 1, ..PRIMARY }));
}

#[test]
fn slots_fill_the_top_row_in_position_order() {
    let points = vec![p(200, 50), p(10, 100), p(10, 10)];
    let bounds = vec![PRIMARY; 3];
    let slots = top_slots(&points, &bounds).unwrap();
    assert_eq!(slots, vec![p(164, 12), p(88, 12), p(12, 12)]);
}

#[test]
fn slots_wrap_into_the_next_row() {
    // 1920 - 24 = 1896 usable pixels hold 24 columns of 76.
    let points: Vec<Point> = (0..26).map(|i| p(i * 5, 0)).collect();
    let bounds = vec![PRIMARY; 26];
    let slots = top_slots(&points, &bounds).unwrap();
    assert_eq!(slots[0], p(12, 12));
    assert_eq!(slots[23], p(12 + 23 * 76, 12));
    assert_eq!(slots[24], p(12, 88));
    assert_eq!(slots[25], p(88, 88));
}

#[test]
fn each_monitor_has_its_own_slots() {
    let points = vec![p(1950, 500), p(100, 100), p(1950, 100)];
    let bounds = vec![NARROW, PRIMARY, NARROW];
    let slots = top_slots(&points, &bounds).unwrap();
    // The narrow work area is less wide than one slot, so it has one column.
    assert_eq!(slots, vec![p(1932, 88), p(12, 12), p(1932, 12)]);
}

#[test]
fn icons_at_the_same_point_keep_their_order() {
    let points = vec![p(5, 5), p(5, 5), p(5, 5)];
    let bounds = vec![PRIMARY; 3];
    let slots = top_slots(&points, &bounds).unwrap();
    assert_eq!(slots, vec![p(12, 12), p(88, 12), p(164, 12)]);
}

#[test]
fn slots_on_a_monitor_are_distinct() {
    let points: Vec<Point> = (0..60).map(|i| p((i * 37) % 11, (i * 13) % 7)).collect();
    let bounds = vec![NARROW; 60];
    let slots = top_slots(&points, &bounds).unwrap();
    for i in 0..slots.len() {
        for j in 0..i {
            assert_ne!(slots[i], slots[j]);
        }
    }
}

#[test]
fn negative_work_areas_are_laid_out() {
    let left_monitor = Rect { left: -1280, top: -200, right: 0, bottom: 824 };
    let slots = top_slots(&vec![p(-500, 0)], &vec![left_monitor]).unwrap();
    assert_eq!(slots, vec![p(-1268, -188)]);
}

#[test]
fn overflowing_layouts_are_refused() {
    let far = Rect { left: i32::MAX - 5, top: 0, right: i32::MAX, bottom: 100 };
    assert!(top_slots(&vec![p(0, 0)], &vec![far]).is_none());
    let wide = Rect { left: i32::MIN, top: 0, right: i32::MAX, bottom: 100 };
    assert!(top_slots(&vec![p(0, 0)], &vec![wide]).is_none());
    let low = Rect { left: 0, top: i32::MAX - 50, right: 10, bottom: i32::MAX };
    assert!(top_slots(&vec![p(0, 0), p(0, 1)], &vec![low, low]).is_none());
    assert_eq!(top_slots(&vec![p(0, 0)], &vec![low]).unwrap(), vec![p(12, i32::MAX - 38)]);
}

#[test]
fn no_icons_no_slots() {
    assert_eq!(top_slots(&Vec::new(), &Vec::new()).unwrap(), Vec::<Point>::new());
}

#[test]
fn slots_stay_within_the_usable_width() {
    let points: Vec<Point> = (0..30).map(|i| p(i, 0)).collect();
    for area in [PRIMARY, NARROW, Rect { left: -300, top: 0, right: -100, bottom: 500 }] {
        let bounds = vec![area; 30];
        let slots = top_slots(&points, &bounds).unwrap();
        let usable = (area.right - area.left - 24).max(76);
        for slot in slots {
            assert!(slot.x >= area.left + 12);
            assert!(slot.x + 76 <= area.left + 12 + usable);
            assert!(slot.y >= area.top + 12);
        }
    }
}
