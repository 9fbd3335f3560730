use vstd::prelude::*;

verus! {

/// The two animations that the program alternates between.
#[derive(Clone, Copy, Debug, PartialEq, Eq, Structural)]
pub enum AnimationMode {
    GravityBounce,
    RecycleBinCatch,
}

impl AnimationMode {
    /// The other mode: the mode that is played after `self`.
    pub open spec fn spec_next(self) -> AnimationMode {
        match self {
            AnimationMode::RecycleBinCatch => AnimationMode::GravityBounce,
            AnimationMode::GravityBounce => AnimationMode::RecycleBinCatch,
        }
    }

    /// Returns the mode that follows `self`.
    pub fn next(self) -> (r: AnimationMode)
        ensures
            r == self.spec_next(),
    {
        match self {
            AnimationMode::RecycleBinCatch => AnimationMode::GravityBounce,
            AnimationMode::GravityBounce => AnimationMode::RecycleBinCatch,
        }
    }
}

/// The mode that the animation loop plays after `mode`: the modes alternate
/// when the desktop has a Recycle Bin, and only the gravity animation is
/// played when it has none.
pub open spec fn following_mode(mode: AnimationMode, has_recycle_bin: bool) -> AnimationMode {
    if has_recycle_bin {
        mode.spec_next()
    } else {
        AnimationMode::GravityBounce
    }
}

/// Chooses the mode of the next round of the animation loop.
pub fn next_mode(mode: AnimationMode, has_recycle_bin: bool) -> (r: AnimationMode)
    ensures
        r == following_mode(mode, has_recycle_bin),
{
    if has_recycle_bin {
        mode.next()
    } else {
        AnimationMode::GravityBounce
    }
}

/// The mode of round `round` (counting from 0) of the animation loop.
pub open spec fn mode_of_round(round: nat, has_recycle_bin: bool) -> AnimationMode
    decreases round,
{
    if round == 0 {
        AnimationMode::GravityBounce
    } else {
        following_mode(mode_of_round((round - 1) as nat, has_recycle_bin), has_recycle_bin)
    }
}

/// Switching modes twice comes back to the first mode, and switching always
/// changes the mode.
pub proof fn law_next_is_involution(mode: AnimationMode)
    ensures
        mode.spec_next().spec_next() == mode,
        mode.spec_next() != mode,
{
}

/// Without a Recycle Bin every round is a gravity round, so the Recycle Bin
/// catch animation is never started on a desktop that lacks a Recycle Bin.
pub proof fn law_no_catch_without_recycle_bin(round: nat)
    ensures
        mode_of_round(round, false) == AnimationMode::GravityBounce,
    decreases round,
{
    if round > 0 {
        law_no_catch_without_recycle_bin((round - 1) as nat);
    }
}

/// With a Recycle Bin the two animations alternate, the gravity animation
/// being played in the even rounds.
pub proof fn law_modes_alternate_with_recycle_bin(round: nat)
    ensures
        mode_of_round(round, true) == (if round % 2 == 0 {
            AnimationMode::GravityBounce
        } else {
            AnimationMode::RecycleBinCatch
        }),
    decreases round,
{
    if round > 0 {
        law_modes_alternate_with_recycle_bin((round - 1) as nat);
    }
}

} // verus!
