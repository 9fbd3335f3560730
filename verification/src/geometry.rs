use vstd::prelude::*;

verus! {

/// A point in desktop coordinates.
#[derive(Clone, Copy, Debug, PartialEq, Eq, Structural)]
pub struct Point {
    pub x: i32,
    pub y: i32,
}

/// A rectangle in desktop coordinates, such as a monitor's work area.
#[derive(Clone, Copy, Debug, PartialEq, Eq, Structural)]
pub struct Rect {
    pub left: i32,
    pub top: i32,
    pub right: i32,
    pub bottom: i32,
}

/// Distance between neighbouring top slots, both across and down.
pub const SLOT_PITCH: i32 = 76;

/// Gap between the work area's left and top edges and the first slot.
pub const SLOT_MARGIN: i32 = 12;

/// Tells whether two work areas are the same rectangle, that is, whether they
/// belong to the same monitor.
pub fn same_rect(first: Rect, second: Rect) -> (same: bool)
    ensures
        same == (first == second),
{
    first.left == second.left && first.top == second.top && first.right == second.right
        && first.bottom == second.bottom
}

/// The width that the top slots of a work area may use: its width less both
/// margins, but never less than one slot.
pub open spec fn usable_width(area: Rect) -> int {
    let width = area.right - area.left - 2 * SLOT_MARGIN;
    if width < SLOT_PITCH {
        SLOT_PITCH as int
    } else {
        width
    }
}

/// The number of slot columns in a work area's top rows.
pub open spec fn slot_columns(area: Rect) -> int {
    usable_width(area) / (SLOT_PITCH as int)
}

/// Whether icon `j` comes before icon `i` on the monitor of `i`: both lie in
/// the same work area and `j` is further left, or as far left and higher up,
/// or at the same point and listed earlier.
pub open spec fn precedes(points: Seq<Point>, bounds: Seq<Rect>, j: int, i: int) -> bool {
    &&& bounds[j] == bounds[i]
    &&& {
        ||| points[j].x < points[i].x
        ||| points[j].x == points[i].x && points[j].y < points[i].y
        ||| points[j].x == points[i].x && points[j].y == points[i].y && j < i
    }
}

/// The number of icons among the first `n` that come before icon `i` on its
/// monitor.
pub open spec fn rank_below(points: Seq<Point>, bounds: Seq<Rect>, i: int, n: nat) -> nat
    decreases n,
{
    if n == 0 {
        0
    } else {
        rank_below(points, bounds, i, (n - 1) as nat) + if precedes(
            points,
            bounds,
            n - 1,
            i,
        ) {
            1nat
        } else {
            0nat
        }
    }
}

/// The place of icon `i` among the icons of its monitor, these being sorted
/// by their original left, then top coordinate (icons at the same point keep
/// their listed order).
pub open spec fn monitor_rank(points: Seq<Point>, bounds: Seq<Rect>, i: int) -> nat {
    rank_below(points, bounds, i, points.len())
}

/// The row of the `rank`-th slot of a work area, as the 32-bit row number
/// that the layout computes with.
pub open spec fn slot_row(area: Rect, rank: nat) -> int {
    ((rank as int / slot_columns(area)) as i32) as int
}

/// The left coordinate of the `rank`-th top slot of a work area: slots fill
/// the rows from left to right.
pub open spec fn slot_x(area: Rect, rank: nat) -> int {
    area.left + SLOT_MARGIN + (rank as int % slot_columns(area)) * SLOT_PITCH
}

/// The top coordinate of the `rank`-th top slot of a work area.
pub open spec fn slot_y(area: Rect, rank: nat) -> int {
    area.top + SLOT_MARGIN + slot_row(area, rank) * SLOT_PITCH
}

/// Whether the layout of the `rank`-th slot of a work area can be computed in
/// 32-bit coordinates without overflow.
pub open spec fn slot_fits(area: Rect, rank: nat) -> bool {
    &&& i32::MIN <= area.right - area.left <= i32::MAX
    &&& i32::MIN <= area.right - area.left - 2 * SLOT_MARGIN
    &&& area.left + SLOT_MARGIN <= i32::MAX
    &&& area.top + SLOT_MARGIN <= i32::MAX
    &&& slot_row(area, rank) * SLOT_PITCH <= i32::MAX
    &&& slot_row(area, rank) * SLOT_PITCH >= i32::MIN
    &&& i32::MIN <= slot_x(area, rank) <= i32::MAX
    &&& i32::MIN <= slot_y(area, rank) <= i32::MAX
}

/// Counts the icons that come before icon `index` on its monitor.
fn rank_on_monitor(points: &Vec<Point>, bounds: &Vec<Rect>, index: usize) -> (rank: usize)
    requires
        points.len() == bounds.len(),
        index < points.len(),
    ensures
        rank == monitor_rank(points@, bounds@, index as int),
        rank < points.len(),
{
    let n = points.len();
    let here = points[index];
    let area = bounds[index];
    let mut rank: usize = 0;
    let mut j: usize = 0;
    while j < n
        invariant
            n == points.len(),
            n == bounds.len(),
            index < n,
            j <= n,
            here == points@[index as int],
            area == bounds@[index as int],
            rank == rank_below(points@, bounds@, index as int, j as nat),
            rank <= j,
            j > index ==> rank < j,
        decreases n - j,
    {
        let other = points[j];
        if same_rect(bounds[j], area) && (other.x < here.x || (other.x == here.x && (other.y
            < here.y || (other.y == here.y && j < index)))) {
            rank = rank + 1;
        }
        j = j + 1;
    }
    rank
}

/// The point of the `rank`-th top slot of a work area, or `None` when its
/// layout overflows 32-bit coordinates.
fn slot_point(area: Rect, rank: usize) -> (slot: Option<Point>)
    ensures
        slot is Some <==> slot_fits(area, rank as nat),
        slot matches Some(p) ==> p.x == slot_x(area, rank as nat) && p.y == slot_y(
            area,
            rank as nat,
        ),
{
    let full_width = area.right as i64 - area.left as i64;
    let width = full_width - 2 * SLOT_MARGIN as i64;
    if full_width > i32::MAX as i64 || full_width < i32::MIN as i64 || width < i32::MIN as i64 {
        return None;
    }
    let usable: i64 = if width < SLOT_PITCH as i64 {
        SLOT_PITCH as i64
    } else {
        width
    };
    assert(usable == usable_width(area));
    let columns = (usable / SLOT_PITCH as i64) as usize;
    assert(columns as int == slot_columns(area));
    assert(columns >= 1);
    let column = rank % columns;
    assert(column < columns);
    assert(column * 76 <= usable) by (nonlinear_arith)
        requires
            column < columns,
            columns == usable / 76,
            usable >= 76,
    ;
    let row = (rank / columns) as i32;
    assert(row as int == slot_row(area, rank as nat));
    let row_offset = row as i64 * SLOT_PITCH as i64;
    let left = area.left as i64 + SLOT_MARGIN as i64;
    let top = area.top as i64 + SLOT_MARGIN as i64;
    let x = left + column as i64 * SLOT_PITCH as i64;
    let y = top + row_offset;
    if left > i32::MAX as i64 || top > i32::MAX as i64 || row_offset > i32::MAX as i64
        || row_offset < i32::MIN as i64 || x > i32::MAX as i64 || y > i32::MAX as i64 || y
        < i32::MIN as i64 {
        return None;
    }
    assert(x >= i32::MIN) by (nonlinear_arith)
        requires
            x == left + column * 76,
            left >= i32::MIN,
            column >= 0,
    ;
    Some(Point { x: x as i32, y: y as i32 })
}

/// The top slot of every icon: the icons of each monitor fill that monitor's
/// top rows from left to right, in the order of their original positions.
/// `points[i]` is where icon `i` stood and `bounds[i]` the work area of the
/// monitor it stood on. `None` when a slot's layout overflows 32-bit
/// coordinates.
pub fn top_slots(points: &Vec<Point>, bounds: &Vec<Rect>) -> (slots: Option<Vec<Point>>)
    requires
        points.len() == bounds.len(),
    ensures
        slots is Some <==> forall|i: int|
            0 <= i < points.len() ==> slot_fits(bounds[i], monitor_rank(points@, bounds@, i)),
        slots matches Some(v) ==> {
            &&& v.len() == points.len()
            &&& forall|i: int|
                0 <= i < points.len() ==> {
                    &&& #[trigger] v[i].x == slot_x(bounds[i], monitor_rank(points@, bounds@, i))
                    &&& v[i].y == slot_y(bounds[i], monitor_rank(points@, bounds@, i))
                }
        },
{
    let n = points.len();
    let mut slots: Vec<Point> = Vec::new();
    let mut i: usize = 0;
    while i < n
        invariant
            n == points.len(),
            n == bounds.len(),
            i <= n,
            slots.len() == i,
            forall|k: int|
                0 <= k < i ==> slot_fits(bounds[k], monitor_rank(points@, bounds@, k)),
            forall|k: int|
                0 <= k < i ==> {
                    &&& #[trigger] slots[k].x == slot_x(
                        bounds[k],
                        monitor_rank(points@, bounds@, k),
                    )
                    &&& slots[k].y == slot_y(bounds[k], monitor_rank(points@, bounds@, k))
                },
        decreases n - i,
    {
        let rank = rank_on_monitor(points, bounds, i);
        let slot = match slot_point(bounds[i], rank) {
            Some(slot) => slot,
            None => return None,
        };
        slots.push(slot);
        assert(slots[i as int] == slot);
        i = i + 1;
    }
    Some(slots)
}

/// When icon `i` comes before icon `j`, every icon that comes before `i`
/// comes before `j` as well, and so does `i` itself.
proof fn lemma_rank_below_grows(points: Seq<Point>, bounds: Seq<Rect>, i: int, j: int, n: nat)
    requires
        precedes(points, bounds, i, j),
        n <= points.len(),
        points.len() == bounds.len(),
        0 <= i < points.len(),
        0 <= j < points.len(),
    ensures
        rank_below(points, bounds, j, n) >= rank_below(points, bounds, i, n) + if i < n {
            1int
        } else {
            0int
        },
    decreases n,
{
    if n > 0 {
        lemma_rank_below_grows(points, bounds, i, j, (n - 1) as nat);
    }
}

/// Two different icons on the same monitor never share a place in the
/// monitor's order, so they are given different top slots.
pub proof fn law_monitor_ranks_distinct(points: Seq<Point>, bounds: Seq<Rect>, i: int, j: int)
    requires
        points.len() == bounds.len(),
        0 <= i < points.len(),
        0 <= j < points.len(),
        i != j,
        bounds[i] == bounds[j],
    ensures
        monitor_rank(points, bounds, i) != monitor_rank(points, bounds, j),
{
    if precedes(points, bounds, i, j) {
        lemma_rank_below_grows(points, bounds, i, j, points.len());
    } else {
        assert(precedes(points, bounds, j, i));
        lemma_rank_below_grows(points, bounds, j, i, points.len());
    }
}

/// Different places in a work area's order give different top slots, as
/// long as their rows fit in 32 bits.
pub proof fn law_slots_distinct(area: Rect, first: nat, second: nat)
    requires
        first != second,
        first as int / slot_columns(area) <= i32::MAX,
        second as int / slot_columns(area) <= i32::MAX,
    ensures
        slot_x(area, first) != slot_x(area, second) || slot_y(area, first) != slot_y(
            area,
            second,
        ),
{
    let c = slot_columns(area);
    assert(c >= 1);
    vstd::arithmetic::div_mod::lemma_fundamental_div_mod(first as int, c);
    vstd::arithmetic::div_mod::lemma_fundamental_div_mod(second as int, c);
    assert(first as int / c >= 0) by {
        vstd::arithmetic::div_mod::lemma_div_pos_is_pos(first as int, c);
    }
    assert(second as int / c >= 0) by {
        vstd::arithmetic::div_mod::lemma_div_pos_is_pos(second as int, c);
    }
    if slot_x(area, first) == slot_x(area, second) && slot_y(area, first) == slot_y(area, second) {
        assert(first as int % c == second as int % c);
        assert(slot_row(area, first) == first as int / c);
        assert(slot_row(area, second) == second as int / c);
        assert(first as int / c == second as int / c);
        assert(false);
    }
}

/// Every top slot starts inside its work area's usable width: it begins no
/// further left than the margin and leaves room for a full slot before the
/// usable width ends.
pub proof fn law_slot_within_usable_width(area: Rect, rank: nat)
    ensures
        area.left + SLOT_MARGIN <= slot_x(area, rank),
        slot_x(area, rank) + SLOT_PITCH <= area.left + SLOT_MARGIN + usable_width(area),
{
    let c = slot_columns(area);
    let m = rank as int % c;
    assert(0 <= m < c);
    assert(m * 76 >= 0) by (nonlinear_arith)
        requires
            m >= 0,
    ;
    assert(m * 76 + 76 <= usable_width(area)) by (nonlinear_arith)
        requires
            m < c,
            c == usable_width(area) / 76,
            usable_width(area) >= 76,
    ;
}

/// Two different icons on the same monitor are given different top slots,
/// as long as their slot rows fit in 32 bits.
pub proof fn law_icons_on_a_monitor_get_distinct_slots(
    points: Seq<Point>,
    bounds: Seq<Rect>,
    i: int,
    j: int,
)
    requires
        points.len() == bounds.len(),
        0 <= i < points.len(),
        0 <= j < points.len(),
        i != j,
        bounds[i] == bounds[j],
        monitor_rank(points, bounds, i) as int / slot_columns(bounds[i]) <= i32::MAX,
        monitor_rank(points, bounds, j) as int / slot_columns(bounds[j]) <= i32::MAX,
    ensures
        slot_x(bounds[i], monitor_rank(points, bounds, i)) != slot_x(
            bounds[j],
            monitor_rank(points, bounds, j),
        ) || slot_y(bounds[i], monitor_rank(points, bounds, i)) != slot_y(
            bounds[j],
            monitor_rank(points, bounds, j),
        ),
{
    law_monitor_ranks_distinct(points, bounds, i, j);
    law_slots_distinct(bounds[i], monitor_rank(points, bounds, i), monitor_rank(points, bounds, j));
}

/// Counting the icons before icon `i` gives the same number for two layouts
/// that agree on icon `i` and on every icon of its work area.
proof fn lemma_rank_below_same_monitor(
    points: Seq<Point>,
    bounds: Seq<Rect>,
    points2: Seq<Point>,
    bounds2: Seq<Rect>,
    i: int,
    n: nat,
)
    requires
        points.len() == bounds.len(),
        points2.len() == bounds2.len(),
        points.len() == points2.len(),
        n <= points.len(),
        0 <= i < points.len(),
        bounds2[i] == bounds[i],
        points2[i] == points[i],
        forall|j: int|
            0 <= j < points.len() && (bounds[j] == bounds[i] || bounds2[j] == bounds[i]) ==> {
                &&& #[trigger] bounds2[j] == bounds[j]
                &&& points2[j] == points[j]
            },
    ensures
        rank_below(points2, bounds2, i, n) == rank_below(points, bounds, i, n),
    decreases n,
{
    if n > 0 {
        lemma_rank_below_same_monitor(points, bounds, points2, bounds2, i, (n - 1) as nat);
        let k = n - 1;
        if bounds[k] == bounds[i] || bounds2[k] == bounds[i] {
            assert(bounds2[k] == bounds[k]);
        }
    }
}

/// The place of an icon in its monitor's order depends only on the icons of
/// the same work area: icons on any other work area (even one of the same
/// size) may be added, moved or removed without changing it.
pub proof fn law_rank_ignores_other_work_areas(
    points: Seq<Point>,
    bounds: Seq<Rect>,
    points2: Seq<Point>,
    bounds2: Seq<Rect>,
    i: int,
)
    requires
        points.len() == bounds.len(),
        points2.len() == bounds2.len(),
        points.len() == points2.len(),
        0 <= i < points.len(),
        bounds2[i] == bounds[i],
        points2[i] == points[i],
        forall|j: int|
            0 <= j < points.len() && (bounds[j] == bounds[i] || bounds2[j] == bounds[i]) ==> {
                &&& #[trigger] bounds2[j] == bounds[j]
                &&& points2[j] == points[j]
            },
    ensures
        monitor_rank(points2, bounds2, i) == monitor_rank(points, bounds, i),
{
    lemma_rank_below_same_monitor(points, bounds, points2, bounds2, i, points.len());
}

/// No icon among the first `n` comes before an icon that is the leftmost
/// (then topmost, then first listed) of its work area.
proof fn lemma_rank_below_of_first_icon(points: Seq<Point>, bounds: Seq<Rect>, i: int, n: nat)
    requires
        points.len() == bounds.len(),
        n <= points.len(),
        0 <= i < points.len(),
        forall|j: int|
            0 <= j < points.len() && j != i && #[trigger] bounds[j] == bounds[i] ==> {
                ||| points[i].x < points[j].x
                ||| points[i].x == points[j].x && points[i].y < points[j].y
                ||| points[i] == points[j] && i < j
            },
    ensures
        rank_below(points, bounds, i, n) == 0,
    decreases n,
{
    if n > 0 {
        lemma_rank_below_of_first_icon(points, bounds, i, (n - 1) as nat);
        let k = n - 1;
        if k != i && bounds[k] == bounds[i] {
            assert(!precedes(points, bounds, k, i));
        }
    }
}

/// The icon that stands leftmost (then topmost, then first listed) among the
/// icons of its work area takes the first top slot of that work area, at
/// the margin from its left and top edges, whatever stands on other
/// monitors.
pub proof fn law_first_icon_of_a_work_area_gets_first_slot(
    points: Seq<Point>,
    bounds: Seq<Rect>,
    i: int,
)
    requires
        points.len() == bounds.len(),
        0 <= i < points.len(),
        forall|j: int|
            0 <= j < points.len() && j != i && #[trigger] bounds[j] == bounds[i] ==> {
                ||| points[i].x < points[j].x
                ||| points[i].x == points[j].x && points[i].y < points[j].y
                ||| points[i] == points[j] && i < j
            },
    ensures
        monitor_rank(points, bounds, i) == 0,
        slot_x(bounds[i], monitor_rank(points, bounds, i)) == bounds[i].left + SLOT_MARGIN,
        slot_y(bounds[i], monitor_rank(points, bounds, i)) == bounds[i].top + SLOT_MARGIN,
{
    lemma_rank_below_of_first_icon(points, bounds, i, points.len());
    let c = slot_columns(bounds[i]);
    assert(c >= 1);
    assert(0int % c == 0);
    assert(0int / c == 0);
}

} // verus!
