use vstd::prelude::*;
use crate::desktop::count_true;
use crate::error::{check, failure_message, Error};

verus! {

/// `S_FALSE`: success, but the enumeration has no more items.
pub const S_FALSE: i32 = 1;

/// `E_NOTIMPL` (`0x80004001`): the method is not implemented.
pub const E_NOTIMPL: i32 = -2147467263i32;

/// `RPC_E_CHANGED_MODE` (`0x80010106`): the thread already runs in another
/// COM apartment model.
pub const RPC_E_CHANGED_MODE: i32 = -2147417850i32;

/// Decides the outcome of `CoInitializeEx`: a thread that already runs in
/// another apartment model is refused with its own message, any other code
/// is checked as usual.
pub fn apartment_init_outcome(hr: i32) -> (r: Result<(), Error>)
    ensures
        r is Ok <==> hr >= 0,
        r matches Err(e) ==> e@ == (if hr == RPC_E_CHANGED_MODE {
            "the current thread already uses an incompatible COM apartment"@
        } else {
            failure_message("CoInitializeEx"@, hr as u32)
        }),
{
    if hr == RPC_E_CHANGED_MODE {
        return Err(Error::new("the current thread already uses an incompatible COM apartment"));
    }
    check(hr, "CoInitializeEx")
}

/// Decides the outcome of setting the desktop's folder view options: some
/// desktops do not implement the setter, and still position icons freely,
/// so `E_NOTIMPL` counts as success.
pub fn view_options_outcome(hr: i32) -> (r: Result<(), Error>)
    ensures
        r is Ok <==> (hr >= 0 || hr == E_NOTIMPL),
        r matches Err(e) ==> e@ == failure_message("setting desktop folder view options"@, hr as u32),
{
    if hr == E_NOTIMPL {
        Ok(())
    } else {
        check(hr, "setting desktop folder view options")
    }
}

/// Decides one step of the enumeration of the desktop items: `Ok(false)`
/// when the enumerator is exhausted (`S_FALSE` or nothing fetched),
/// `Ok(true)` when an item was fetched, an error for a failure code.
pub fn enumeration_step(hr: i32, fetched: u32) -> (r: Result<bool, Error>)
    ensures
        r == Ok::<bool, Error>(false) <==> (hr == S_FALSE || fetched == 0),
        r == Ok::<bool, Error>(true) <==> (hr != S_FALSE && fetched != 0 && hr >= 0),
        r matches Err(e) ==> hr != S_FALSE && fetched != 0 && hr < 0 && e@ == failure_message(
            "reading a desktop item"@,
            hr as u32,
        ),
{
    if hr == S_FALSE || fetched == 0 {
        return Ok(false);
    }
    match check(hr, "reading a desktop item") {
        Ok(()) => Ok(true),
        Err(e) => Err(e),
    }
}

/// Checks that every icon to be positioned has a point.
pub fn check_point_count(icon_count: usize, point_count: usize) -> (r: Result<(), Error>)
    ensures
        r is Ok <==> icon_count == point_count,
        r matches Err(e) ==> e@ == "internal PIDL/position count mismatch"@,
{
    if icon_count != point_count {
        Err(Error::new("internal PIDL/position count mismatch"))
    } else {
        Ok(())
    }
}

/// Sizes one batch of `SelectAndPositionItems`: the item and point lists
/// must have the same length, an empty batch needs no call (`Ok(None)`), and
/// the count must fit the call's 32-bit count (`Ok(Some(count))`).
pub fn position_batch(item_count: usize, point_count: usize) -> (r: Result<Option<u32>, Error>)
    ensures
        r matches Ok(c) ==> item_count == point_count && item_count <= u32::MAX && (c is None
            <==> item_count == 0) && (c matches Some(n) ==> n == item_count),
        r matches Err(e) ==> e@ == (if item_count != point_count {
            "internal raw PIDL/position count mismatch"@
        } else {
            "too many desktop icons to update"@
        }),
        r is Err <==> (item_count != point_count || item_count > u32::MAX),
{
    if item_count != point_count {
        return Err(Error::new("internal raw PIDL/position count mismatch"));
    }
    if item_count == 0 {
        return Ok(None);
    }
    if item_count > u32::MAX as usize {
        return Err(Error::new("too many desktop icons to update"));
    }
    Ok(Some(item_count as u32))
}

/// Checks the icons whose bodies are moving: there must be one body per icon
/// and every index must name an icon. `Ok(false)` when there is nothing to
/// move, `Ok(true)` when the listed icons are to be positioned.
pub fn check_moving_indices(icon_count: usize, body_count: usize, indices: &Vec<usize>) -> (r:
    Result<bool, Error>)
    ensures
        r matches Ok(any) ==> icon_count == body_count && any == (indices.len() > 0) && forall|
            k: int,
        |
            0 <= k < indices.len() ==> #[trigger] indices[k] < icon_count,
        r matches Err(e) ==> e@ == (if icon_count != body_count {
            "internal icon/body count mismatch"@
        } else {
            "moving icon index is out of range"@
        }),
        r is Err <==> (icon_count != body_count || exists|k: int|
            0 <= k < indices.len() && #[trigger] indices[k] >= icon_count),
{
    if icon_count != body_count {
        return Err(Error::new("internal icon/body count mismatch"));
    }
    if indices.len() == 0 {
        return Ok(false);
    }
    let mut k: usize = 0;
    while k < indices.len()
        invariant
            k <= indices.len(),
            icon_count == body_count,
            forall|l: int| 0 <= l < k ==> #[trigger] indices[l] < icon_count,
        decreases indices.len() - k,
    {
        if indices[k] >= icon_count {
            return Err(Error::new("moving icon index is out of range"));
        }
        k = k + 1;
    }
    Ok(true)
}

/// The positions at which `released` holds `true`, in increasing order.
pub open spec fn released_positions(released: Seq<bool>) -> Seq<usize>
    decreases released.len(),
{
    if released.len() == 0 {
        Seq::empty()
    } else {
        let before = released_positions(released.drop_last());
        if released.last() {
            before.push((released.len() - 1) as usize)
        } else {
            before
        }
    }
}

/// The selection holds exactly the released positions, each once and in
/// increasing order, so there are as many as there are released bodies.
pub proof fn law_released_positions_are_exact(released: Seq<bool>)
    requires
        released.len() <= usize::MAX,
    ensures
        forall|k: int|
            0 <= k < released.len() ==> (released_positions(released).contains(k as usize)
                <==> #[trigger] released[k]),
        forall|m: int|
            0 <= m < released_positions(released).len() ==> #[trigger] released_positions(
                released,
            )[m] < released.len(),
        forall|m: int, l: int|
            0 <= m < l < released_positions(released).len() ==> released_positions(released)[m]
                < released_positions(released)[l],
        released_positions(released).len() == count_true(released),
    decreases released.len(),
{
    if released.len() > 0 {
        let init = released.drop_last();
        law_released_positions_are_exact(init);
        let before = released_positions(init);
        let after = released_positions(released);
        let last = (released.len() - 1) as usize;
        assert forall|m: int, l: int| 0 <= m < l < after.len() implies after[m] < after[l] by {
            if l < before.len() {
                assert(before[m] < before[l]);
            } else {
                assert(before[m] < init.len());
            }
        }
        assert forall|k: int| 0 <= k < released.len() implies (after.contains(k as usize)
            <==> #[trigger] released[k]) by {
            if k < released.len() - 1 {
                assert(released[k] == init[k]);
                if after.contains(k as usize) {
                    let m = choose|m: int| 0 <= m < after.len() && after[m] == k as usize;
                    if m < before.len() {
                        assert(before[m] == k as usize);
                        assert(before.contains(k as usize));
                    }
                }
                if before.contains(k as usize) {
                    let m = choose|m: int| 0 <= m < before.len() && before[m] == k as usize;
                    assert(after[m] == k as usize);
                }
            } else {
                if released.last() {
                    assert(after[after.len() - 1] == last);
                } else {
                    if after.contains(k as usize) {
                        let m = choose|m: int| 0 <= m < after.len() && after[m] == k as usize;
                        assert(before[m] < init.len());
                    }
                }
            }
        }
    }
}

/// Selects the icons whose bodies have been released, for positioning:
/// there must be one body per icon.
pub fn released_selection(icon_count: usize, released: &Vec<bool>) -> (r: Result<
    Vec<usize>,
    Error,
>)
    ensures
        r is Ok <==> icon_count == released.len(),
        r matches Ok(v) ==> v@ == released_positions(released@),
        r matches Ok(v) ==> v@.len() == count_true(released@) && forall|k: int|
            0 <= k < released.len() ==> (v@.contains(k as usize) <==> #[trigger] released@[k]),
        r matches Err(e) ==> e@ == "internal icon/body count mismatch"@,
{
    if icon_count != released.len() {
        return Err(Error::new("internal icon/body count mismatch"));
    }
    let mut selected: Vec<usize> = Vec::new();
    let mut k: usize = 0;
    while k < released.len()
        invariant
            k <= released.len(),
            selected@ == released_positions(released@.subrange(0, k as int)),
        decreases released.len() - k,
    {
        assert(released@.subrange(0, k + 1).drop_last() =~= released@.subrange(0, k as int));
        if released[k] {
            selected.push(k);
        }
        k = k + 1;
    }
    assert(released@.subrange(0, released.len() as int) =~= released@);
    proof {
        law_released_positions_are_exact(released@);
    }
    Ok(selected)
}

/// The canonical GUID of the Recycle Bin in lower case,
/// `645ff040-5081-101b-9f08-00aa002f954e`, as ASCII bytes.
pub const RECYCLE_BIN_GUID: [u8; 36] = [
    54u8, 52u8, 53u8, 102u8, 102u8, 48u8, 52u8, 48u8, 45u8, 53u8, 48u8, 56u8, 49u8, 45u8, 49u8,
    48u8, 49u8, 98u8, 45u8, 57u8, 102u8, 48u8, 56u8, 45u8, 48u8, 48u8, 97u8, 97u8, 48u8, 48u8,
    50u8, 102u8, 57u8, 53u8, 52u8, 101u8,
];

/// An UTF-16 code unit with ASCII upper-case letters made lower case.
pub open spec fn ascii_lower(unit: u16) -> u16 {
    if 65 <= unit <= 90 {
        (unit + 32) as u16
    } else {
        unit
    }
}

/// Whether the Recycle Bin GUID, ignoring ASCII case, starts at unit `i` of
/// `name`.
pub open spec fn guid_at(name: Seq<u16>, i: int) -> bool {
    &&& 0 <= i
    &&& i + 36 <= name.len()
    &&& forall|k: int| 0 <= k < 36 ==> ascii_lower(#[trigger] name[i + k]) == RECYCLE_BIN_GUID@[k] as u16
}

/// Whether a parsing name contains the Recycle Bin GUID, ignoring ASCII case.
pub open spec fn names_recycle_bin(name: Seq<u16>) -> bool {
    exists|i: int| guid_at(name, i)
}

/// Tells from a desktop item's parsing name, as UTF-16 code units, whether
/// the item is the Recycle Bin: the name contains the Recycle Bin's GUID in
/// any ASCII case.
pub fn is_recycle_bin_name(name: &Vec<u16>) -> (found: bool)
    ensures
        found == names_recycle_bin(name@),
{
    let n = name.len();
    if n < 36 {
        return false;
    }
    let mut i: usize = 0;
    while i <= n - 36
        invariant
            n == name.len(),
            n >= 36,
            i <= n - 35,
            forall|j: int| 0 <= j < i ==> !guid_at(name@, j),
        decreases n - i,
    {
        let mut k: usize = 0;
        let mut all = true;
        while k < 36
            invariant
                i + 36 <= n,
                n == name.len(),
                k <= 36,
                all == forall|l: int| 0 <= l < k ==> ascii_lower(#[trigger] name@[i + l])
                    == RECYCLE_BIN_GUID@[l] as u16,
            decreases 36 - k,
        {
            let unit = name[i + k];
            let lower: u16 = if 65 <= unit && unit <= 90 {
                unit + 32
            } else {
                unit
            };
            if lower != RECYCLE_BIN_GUID[k] as u16 {
                all = false;
            }
            k = k + 1;
        }
        if all {
            assert(guid_at(name@, i as int));
            return true;
        }
        i = i + 1;
    }
    assert forall|j: int| !guid_at(name@, j) by {
        if 0 <= j < i {
        }
    }
    false
}

} // verus!
