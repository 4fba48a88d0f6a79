use fbx_scene::separate_name_class;
use fbx_scene::text::same_text;

#[test]
fn name_and_class_are_split_at_the_separator() {
    assert_eq!(separate_name_class("Box\u{0}\u{1}Model"), Some(("Box", "Model")));
}

#[test]
fn text_without_separator_has_no_name_and_class() {
    assert_eq!(separate_name_class("BoxModel"), None);
    assert_eq!(separate_name_class(""), None);
    assert_eq!(separate_name_class("Box\u{0}Model"), None);
    assert_eq!(separate_name_class("Box\u{1}\u{0}Model"), None);
    assert_eq!(separate_name_class("Box\u{0}"), None);
}

#[test]
fn the_first_separator_splits() {
    assert_eq!(
        separate_name_class("a\u{0}\u{1}b\u{0}\u{1}c"),
        Some(("a", "b\u{0}\u{1}c")));
}

#[test]
fn name_or_class_may_be_empty() {
    assert_eq!(separate_name_class("\u{0}\u{1}"), Some(("", "")));
    assert_eq!(separate_name_class("\u{0}\u{1}Model"), Some(("", "Model")));
    assert_eq!(separate_name_class("Box\u{0}\u{1}"), Some(("Box", "")));
}

#[test]
fn name_and_class_may_hold_any_characters() {
    assert_eq!(
        separate_name_class("Würfel 立方体\u{0}\u{1}Modèle"),
        Some(("Würfel 立方体", "Modèle")));
}

#[test]
fn same_text_compares_texts() {
    assert!(same_text("", ""));
    assert!(same_text("Mesh", "Mesh"));
    assert!(!same_text("Mesh", "mesh"));
    assert!(!same_text("Mesh", "Meshes"));
    assert!(!same_text("Meshes", "Mesh"));
    assert!(same_text("立方体", "立方体"));
    assert!(!same_text("立方体", "立方"));
}
