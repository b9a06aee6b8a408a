use scene_tick::asset::AssetReference;

#[test]
fn locator_joins_container_and_sub_resource() {
    let reference = AssetReference::new("models/mita.glb".to_string(), "Scene0".to_string());
    assert_eq!(reference.locator(), "models/mita.glb#Scene0");
}

#[test]
fn locator_with_empty_parts_is_just_the_separator() {
    let reference = AssetReference::new(String::new(), String::new());
    assert_eq!(reference.locator(), "#");
}
