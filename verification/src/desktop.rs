use vstd::prelude::*;
use crate::error::{decimal, decimal_text, Error};
use crate::layout::{FVO_CUSTOMPOSITION, FWF_AUTOARRANGE, FWF_SNAPTOGRID};

verus! {

/// The number of `true` entries of `flags`.
pub open spec fn count_true(flags: Seq<bool>) -> nat
    decreases flags.len(),
{
    if flags.len() == 0 {
        0
    } else {
        count_true(flags.drop_last()) + if flags.last() {
            1nat
        } else {
            0nat
        }
    }
}

/// Counts the icons that are the Recycle Bin.
fn count_recycle_bins(is_recycle_bin: &Vec<bool>) -> (count: usize)
    ensures
        count == count_true(is_recycle_bin@),
{
    let mut count: usize = 0;
    let mut k: usize = 0;
    while k < is_recycle_bin.len()
        invariant
            k <= is_recycle_bin.len(),
            count == count_true(is_recycle_bin@.subrange(0, k as int)),
            count <= k,
        decreases is_recycle_bin.len() - k,
    {
        assert(is_recycle_bin@.subrange(0, k + 1).drop_last() =~= is_recycle_bin@.subrange(
            0,
            k as int,
        ));
        if is_recycle_bin[k] {
            count = count + 1;
        }
        k = k + 1;
    }
    assert(is_recycle_bin@.subrange(0, is_recycle_bin.len() as int) =~= is_recycle_bin@);
    count
}

/// Checks the desktop items before the animation starts: there must be at
/// least one, and at most one of them may be the Recycle Bin. Returns the
/// number of Recycle Bins (0 or 1). `is_recycle_bin[i]` tells whether item
/// `i` is the Recycle Bin.
pub fn validate_desktop_icons(is_recycle_bin: &Vec<bool>) -> (r: Result<usize, Error>)
    ensures
        r is Ok <==> (is_recycle_bin.len() > 0 && count_true(is_recycle_bin@) <= 1),
        r matches Ok(n) ==> n == count_true(is_recycle_bin@),
        r matches Err(e) ==> e@ == (if is_recycle_bin.len() == 0 {
            "no desktop icons were found"@
        } else {
            "expected at most one Recycle Bin icon, found "@ + decimal(
                count_true(is_recycle_bin@),
            )
        }),
{
    if is_recycle_bin.len() == 0 {
        return Err(Error::new("no desktop icons were found"));
    }
    let count = count_recycle_bins(is_recycle_bin);
    if count > 1 {
        let mut message = "expected at most one Recycle Bin icon, found ".to_owned();
        let digits = decimal_text(count);
        message.append(digits.as_str());
        return Err(Error { message });
    }
    Ok(count)
}

/// The index of the first item that is the Recycle Bin, if there is one.
pub fn recycle_bin_index(is_recycle_bin: &Vec<bool>) -> (r: Option<usize>)
    ensures
        r is None <==> forall|k: int| 0 <= k < is_recycle_bin.len() ==> !#[trigger] is_recycle_bin[k],
        r matches Some(i) ==> i < is_recycle_bin.len() && is_recycle_bin[i as int] && forall|k: int|
            0 <= k < i ==> !#[trigger] is_recycle_bin[k],
{
    let mut k: usize = 0;
    while k < is_recycle_bin.len()
        invariant
            k <= is_recycle_bin.len(),
            forall|l: int| 0 <= l < k ==> !#[trigger] is_recycle_bin[l],
        decreases is_recycle_bin.len() - k,
    {
        if is_recycle_bin[k] {
            return Some(k);
        }
        k = k + 1;
    }
    None
}

/// The number of icons that take part in the animation besides the Recycle
/// Bin, which only catches the others.
pub fn animated_icon_count(icon_count: usize, has_recycle_bin: bool) -> (n: usize)
    requires
        has_recycle_bin ==> icon_count >= 1,
    ensures
        n == (if has_recycle_bin {
            icon_count - 1
        } else {
            icon_count as int
        }),
{
    if has_recycle_bin {
        icon_count - 1
    } else {
        icon_count
    }
}

/// What the read-only check reports about the desktop.
#[derive(Clone, Copy, Debug, PartialEq, Eq, Structural)]
pub struct CheckReport {
    pub recycle_bin_found: bool,
    pub auto_arrange: bool,
    pub align_to_grid: bool,
    pub custom_position: bool,
}

/// The report of the read-only check, from the number of Recycle Bins and
/// the current folder flags and view options.
pub fn check_report(recycle_count: usize, folder_flags: u32, view_options: u32) -> (report:
    CheckReport)
    ensures
        report.recycle_bin_found == (recycle_count == 1),
        report.auto_arrange == (folder_flags & FWF_AUTOARRANGE != 0),
        report.align_to_grid == (folder_flags & FWF_SNAPTOGRID != 0),
        report.custom_position == (view_options & FVO_CUSTOMPOSITION != 0),
{
    CheckReport {
        recycle_bin_found: recycle_count == 1,
        auto_arrange: folder_flags & FWF_AUTOARRANGE != 0,
        align_to_grid: folder_flags & FWF_SNAPTOGRID != 0,
        custom_position: view_options & FVO_CUSTOMPOSITION != 0,
    }
}

} // verus!
