use fbx_scene::property::PropertyFlags;

#[test]
fn no_flags_are_zero() {
    assert_eq!(PropertyFlags::none(), PropertyFlags(0));
    assert_eq!(PropertyFlags::from_string(""), PropertyFlags::none());
}

#[test]
fn each_flag_has_its_own_bit() {
    assert_eq!(PropertyFlags::none().set_animatable(true), PropertyFlags(0x02));
    assert_eq!(PropertyFlags::none().set_animated(true), PropertyFlags(0x06));
    assert_eq!(PropertyFlags::none().set_user_defined(true), PropertyFlags(0x10));
    assert_eq!(PropertyFlags::none().set_hidden(true), PropertyFlags(0x20));
    assert_eq!(PropertyFlags::none().set_locked_member(9), PropertyFlags(9 << 7));
}

#[test]
fn setting_one_flag_keeps_the_others() {
    let all = PropertyFlags::none()
        .set_animated(true)
        .set_user_defined(true)
        .set_hidden(true)
        .set_locked_member(5);
    assert_eq!(all, PropertyFlags(0x02 | 0x04 | 0x10 | 0x20 | (5 << 7)));
    assert_eq!(all.set_hidden(false), PropertyFlags(0x02 | 0x04 | 0x10 | (5 << 7)));
    assert_eq!(all.set_user_defined(false), PropertyFlags(0x02 | 0x04 | 0x20 | (5 << 7)));
    assert_eq!(all.set_locked_member(0), PropertyFlags(0x02 | 0x04 | 0x10 | 0x20));
    assert_eq!(all.set_locked_member(2), PropertyFlags(0x02 | 0x04 | 0x10 | 0x20 | (2 << 7)));
}

#[test]
fn flags_that_are_not_animatable_are_not_animated() {
    assert_eq!(
        PropertyFlags::none().set_animated(true).set_animatable(false),
        PropertyFlags::none());
    assert_eq!(
        PropertyFlags::none().set_animated(true).set_animated(false),
        PropertyFlags::none().set_animatable(true));
}

#[test]
fn unknown_characters_in_flags_are_skipped() {
    assert_eq!(PropertyFlags::from_string("xUé?H"), PropertyFlags(0x10 | 0x20));
    assert_eq!(PropertyFlags::from_string("+"), PropertyFlags::none());
    assert_eq!(PropertyFlags::from_string("7"), PropertyFlags::none());
}

#[test]
fn lock_without_digit_locks_nothing() {
    assert_eq!(PropertyFlags::from_string("L"), PropertyFlags::none());
    assert_eq!(PropertyFlags::from_string("LA"), PropertyFlags(0x02));
    assert_eq!(PropertyFlags::from_string("LU"), PropertyFlags(0x10));
    assert_eq!(PropertyFlags::from_string("L0"), PropertyFlags::none());
    assert_eq!(PropertyFlags::from_string("L9L1"), PropertyFlags(1 << 7));
}

#[test]
fn plus_after_a_makes_animated() {
    assert_eq!(PropertyFlags::from_string("A"), PropertyFlags(0x02));
    assert_eq!(PropertyFlags::from_string("A+"), PropertyFlags(0x06));
    assert_eq!(PropertyFlags::from_string("AU+"), PropertyFlags(0x02 | 0x10));
}
