use vstd::prelude::*;
use crate::error::Error;

verus! {

/// `FWF_AUTOARRANGE`: the desktop arranges its icons automatically.
pub const FWF_AUTOARRANGE: u32 = 0x1u32;

/// `FWF_SNAPTOGRID`: the desktop aligns its icons to a grid.
pub const FWF_SNAPTOGRID: u32 = 0x4u32;

/// The folder flags that the animation switches off while it runs.
pub const ARRANGEMENT_FLAGS: u32 = 0x5u32;

/// `FVO_CUSTOMPOSITION`: the desktop accepts arbitrary icon positions.
pub const FVO_CUSTOMPOSITION: u32 = 0x2u32;

/// What a masked setter of the Shell (`SetCurrentFolderFlags`,
/// `SetFolderViewOptions`) leaves behind: the bits under `mask` are taken from
/// `value`, the others are kept from `current`.
pub open spec fn masked_update(current: u32, mask: u32, value: u32) -> u32 {
    (current & !mask) | (value & mask)
}

/// The value written under `FVO_CUSTOMPOSITION` to switch custom positioning
/// on or off.
pub fn custom_position_value(enabled: bool) -> (value: u32)
    ensures
        value == (if enabled {
            FVO_CUSTOMPOSITION
        } else {
            0u32
        }),
{
    if enabled {
        FVO_CUSTOMPOSITION
    } else {
        0
    }
}

/// The settings that put the desktop back as it was before the animation.
#[derive(Clone, Copy, Debug, PartialEq, Eq, Structural)]
pub struct RestoreSettings {
    /// The arrangement flags to write under `ARRANGEMENT_FLAGS`.
    pub folder_flags: u32,
    /// Whether custom positioning was on.
    pub custom_position: bool,
}

/// The settings to restore, given the folder flags and view options read
/// before the animation changed them.
pub open spec fn restore_settings(original_folder_flags: u32, original_view_options: u32) -> RestoreSettings {
    RestoreSettings {
        folder_flags: original_folder_flags & ARRANGEMENT_FLAGS,
        custom_position: original_view_options & FVO_CUSTOMPOSITION != 0,
    }
}

impl RestoreSettings {
    /// The settings to restore, from the folder flags and view options read
    /// before the animation changed them.
    pub fn from_originals(original_folder_flags: u32, original_view_options: u32) -> (settings:
        RestoreSettings)
        ensures
            settings == restore_settings(original_folder_flags, original_view_options),
    {
        RestoreSettings {
            folder_flags: original_folder_flags & ARRANGEMENT_FLAGS,
            custom_position: original_view_options & FVO_CUSTOMPOSITION != 0,
        }
    }
}

/// Preparing the layout switches automatic arrangement and grid alignment
/// off and custom positioning on, and touches no other setting.
pub proof fn law_prepare_frees_positions(folder_flags: u32, view_options: u32)
    ensures
        masked_update(folder_flags, ARRANGEMENT_FLAGS, 0) & FWF_AUTOARRANGE == 0,
        masked_update(folder_flags, ARRANGEMENT_FLAGS, 0) & FWF_SNAPTOGRID == 0,
        masked_update(folder_flags, ARRANGEMENT_FLAGS, 0) & !ARRANGEMENT_FLAGS == folder_flags
            & !ARRANGEMENT_FLAGS,
        masked_update(view_options, FVO_CUSTOMPOSITION, FVO_CUSTOMPOSITION) & FVO_CUSTOMPOSITION
            != 0,
        masked_update(view_options, FVO_CUSTOMPOSITION, FVO_CUSTOMPOSITION)
            & !FVO_CUSTOMPOSITION == view_options & !FVO_CUSTOMPOSITION,
{
    assert(masked_update(folder_flags, 5u32, 0) & 1u32 == 0) by (bit_vector);
    assert(masked_update(folder_flags, 5u32, 0) & 4u32 == 0) by (bit_vector);
    assert(masked_update(folder_flags, 5u32, 0) & !5u32 == folder_flags & !5u32) by (bit_vector);
    assert(masked_update(view_options, 2u32, 2u32) & 2u32 != 0) by (bit_vector);
    assert(masked_update(view_options, 2u32, 2u32) & !2u32 == view_options & !2u32)
        by (bit_vector);
}

/// Restoring brings the folder flags back to their original value, whatever
/// the animation did to the arrangement flags in between, as long as the
/// other flags were left alone.
pub proof fn law_restore_brings_back_folder_flags(original: u32, current: u32)
    requires
        current & !ARRANGEMENT_FLAGS == original & !ARRANGEMENT_FLAGS,
    ensures
        masked_update(
            current,
            ARRANGEMENT_FLAGS,
            restore_settings(original, 0).folder_flags,
        ) == original,
{
    assert(masked_update(current, 5u32, original & 5u32) == original) by (bit_vector)
        requires
            current & !5u32 == original & !5u32,
    ;
}

/// Restoring brings the view options back to their original value, whatever
/// the animation did to custom positioning in between, as long as the other
/// options were left alone.
pub proof fn law_restore_brings_back_view_options(original: u32, current: u32)
    requires
        current & !FVO_CUSTOMPOSITION == original & !FVO_CUSTOMPOSITION,
    ensures
        masked_update(
            current,
            FVO_CUSTOMPOSITION,
            if restore_settings(0, original).custom_position {
                FVO_CUSTOMPOSITION
            } else {
                0u32
            },
        ) == original,
{
    assert(0u32 & 5u32 == 0u32) by (bit_vector);
    assert(masked_update(current, 2u32, if original & 2u32 != 0 { 2u32 } else { 0u32 }) == original)
        by (bit_vector)
        requires
            current & !2u32 == original & !2u32,
    ;
}

/// The outcome of a run of steps that are all attempted: the first failure,
/// or success when none failed.
pub open spec fn first_failure(steps: Seq<Result<(), Error>>) -> Result<(), Error>
    decreases steps.len(),
{
    if steps.len() == 0 {
        Ok(())
    } else if steps[0] is Err {
        steps[0]
    } else {
        first_failure(steps.drop_first())
    }
}

/// The first failure is a failure of one of the steps, and every step
/// before it succeeded; there is none exactly when every step succeeded.
pub proof fn law_first_failure(steps: Seq<Result<(), Error>>)
    ensures
        first_failure(steps) is Ok <==> forall|k: int| 0 <= k < steps.len() ==> #[trigger] steps[k] is Ok,
        first_failure(steps) is Err ==> exists|k: int|
            0 <= k < steps.len() && steps[k] == first_failure(steps) && forall|l: int|
                0 <= l < k ==> #[trigger] steps[l] is Ok,
    decreases steps.len(),
{
    if steps.len() > 0 {
        law_first_failure(steps.drop_first());
        let rest = steps.drop_first();
        if steps[0] is Ok {
            assert forall|k: int| 1 <= k < steps.len() implies #[trigger] steps[k] == rest[k - 1] by {}
            if first_failure(steps) is Err {
                let k = choose|k: int|
                    0 <= k < rest.len() && rest[k] == first_failure(rest) && forall|l: int|
                        0 <= l < k ==> #[trigger] rest[l] is Ok;
                assert(steps[k + 1] == first_failure(steps));
                assert forall|l: int| 0 <= l < k + 1 implies #[trigger] steps[l] is Ok by {
                    if l > 0 {
                        assert(rest[l - 1] is Ok);
                    }
                }
            } else {
                assert forall|k: int| 0 <= k < steps.len() implies #[trigger] steps[k] is Ok by {
                    if k > 0 {
                        assert(rest[k - 1] is Ok);
                    }
                }
            }
        }
    }
}

/// Combines the outcomes of restore steps that were all attempted: the
/// first failure is reported, or success when every step succeeded.
pub fn first_failure_of(steps: Vec<Result<(), Error>>) -> (r: Result<(), Error>)
    ensures
        r == first_failure(steps@),
{
    let ghost all = steps@;
    let mut steps = steps;
    let mut outcome: Result<(), Error> = Ok(());
    while steps.len() > 0
        invariant
            steps@ == all.subrange(0, steps.len() as int),
            steps.len() <= all.len(),
            outcome == first_failure(all.subrange(steps.len() as int, all.len() as int)),
        decreases steps.len(),
    {
        let ghost n = steps.len() as int;
        let step = steps.pop().unwrap();
        assert(all.subrange(n - 1, all.len() as int).drop_first() =~= all.subrange(
            n,
            all.len() as int,
        ));
        assert(step == all[n - 1]);
        if step.is_err() {
            outcome = step;
        }
    }
    assert(all.subrange(0, all.len() as int) =~= all);
    outcome
}

/// The desktop settings read before the animation changed them, and whether
/// they have been put back yet.
#[derive(Clone, Copy, Debug, PartialEq, Eq, Structural)]
pub struct LayoutSnapshot {
    pub original_folder_flags: u32,
    pub original_view_options: u32,
    pub restored: bool,
}

/// The snapshot after a restore request and the settings to write, if any:
/// the first request gives the original settings, every later one nothing.
pub open spec fn restore_step(snapshot: LayoutSnapshot) -> (LayoutSnapshot, Option<RestoreSettings>) {
    let after = LayoutSnapshot { restored: true, ..snapshot };
    if snapshot.restored {
        (after, None)
    } else {
        (
            after,
            Some(restore_settings(snapshot.original_folder_flags, snapshot.original_view_options)),
        )
    }
}

impl LayoutSnapshot {
    /// A snapshot of the settings read before the animation, not yet
    /// restored.
    pub fn new(original_folder_flags: u32, original_view_options: u32) -> (snapshot:
        LayoutSnapshot)
        ensures
            snapshot.original_folder_flags == original_folder_flags,
            snapshot.original_view_options == original_view_options,
            !snapshot.restored,
    {
        LayoutSnapshot { original_folder_flags, original_view_options, restored: false }
    }

    /// Takes a restore request: returns the settings to write back the first
    /// time, and `None` once they have been restored, so that the layout is
    /// put back once even when both the normal exit and the drop guard ask.
    pub fn begin_restore(&mut self) -> (settings: Option<RestoreSettings>)
        ensures
            (*final(self), settings) == restore_step(*old(self)),
    {
        if self.restored {
            return None;
        }
        self.restored = true;
        Some(
            RestoreSettings::from_originals(self.original_folder_flags, self.original_view_options),
        )
    }
}

/// A restore request after the first one writes nothing, and leaves the
/// snapshot as it is.
pub proof fn law_restore_happens_once(snapshot: LayoutSnapshot)
    ensures
        restore_step(restore_step(snapshot).0).1 is None,
        restore_step(restore_step(snapshot).0).0 == restore_step(snapshot).0,
{
}

/// The first restore request always yields settings, and writing them with
/// the masked setters puts the original folder flags and view options back,
/// whatever the animation did to the bits it owns in between.
pub proof fn law_first_restore_request_restores(
    snapshot: LayoutSnapshot,
    current_flags: u32,
    current_options: u32,
)
    requires
        !snapshot.restored,
        current_flags & !ARRANGEMENT_FLAGS == snapshot.original_folder_flags & !ARRANGEMENT_FLAGS,
        current_options & !FVO_CUSTOMPOSITION == snapshot.original_view_options
            & !FVO_CUSTOMPOSITION,
    ensures
        restore_step(snapshot).0.restored,
        restore_step(snapshot).1 matches Some(settings) && masked_update(
            current_flags,
            ARRANGEMENT_FLAGS,
            settings.folder_flags,
        ) == snapshot.original_folder_flags && masked_update(
            current_options,
            FVO_CUSTOMPOSITION,
            if settings.custom_position {
                FVO_CUSTOMPOSITION
            } else {
                0u32
            },
        ) == snapshot.original_view_options,
{
    law_restore_brings_back_folder_flags(snapshot.original_folder_flags, current_flags);
    law_restore_brings_back_view_options(snapshot.original_view_options, current_options);
}

} // verus!
