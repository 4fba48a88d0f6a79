use fbx_scene::property::PropertyFlags;

#[test]
fn property_flags_animated_and_animatable() {
    // `set_animated(true)` should turn `Animatable` on.
    assert_eq!(
        PropertyFlags::none().set_animated(true),
        PropertyFlags::none().set_animated(true).set_animatable(true));

    // set_animated(false)` shouldn't turn `Animatable` off.
    assert_eq!(
        PropertyFlags::none().set_animatable(true),
        PropertyFlags::none().set_animatable(true).set_animated(false));
}

#[test]
fn property_flags_from_string() {
    assert_eq!(
        PropertyFlags::from_string("UA+HL7"),
        PropertyFlags::none().set_user_defined(true).set_animated(true).set_hidden(true).set_locked_member(7));

    assert_eq!(
        PropertyFlags::from_string("AHL3"),
        PropertyFlags::none().set_animatable(true).set_hidden(true).set_locked_member(3));
}
