use desktop_icons::animation::{next_mode, AnimationMode};

#[test]
fn next_switches_between_the_two_modes() {
    assert_eq!(AnimationMode::GravityBounce.next(), AnimationMode::RecycleBinCatch);
    assert_eq!(AnimationMode::RecycleBinCatch.next(), AnimationMode::GravityBounce);
}

#[test]
fn next_twice_is_identity() {
    for mode in [AnimationMode::GravityBounce, AnimationMode::RecycleBinCatch] {
        assert_eq!(mode.next().next(), mode);
        assert_ne!(mode.next(), mode);
    }
}

#[test]
fn without_recycle_bin_only_gravity_is_played() {
    let mut mode = AnimationMode::GravityBounce;
    for _ in 0..10 {
        assert_eq!(mode, AnimationMode::GravityBounce);
        mode = next_mode(mode, false);
    }
    assert_eq!(next_mode(AnimationMode::RecycleBinCatch, false), AnimationMode::GravityBounce);
}

#[test]
fn with_recycle_bin_modes_alternate() {
    let mut mode = AnimationMode::GravityBounce;
    for round in 0..10 {
        let expected = if round % 2 == 0 {
            AnimationMode::GravityBounce
        } else {
            AnimationMode::RecycleBinCatch
        };
        assert_eq!(mode, expected);
        mode = next_mode(mode, true);
    }
}
