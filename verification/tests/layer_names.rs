use libcnb::layer_name::is_valid_layer_name;

#[test]
fn layer_name_validation_valid() {
    assert!(is_valid_layer_name("gems"));
    assert!(is_valid_layer_name("Abc 123.-_!"));
    assert!(is_valid_layer_name("build-foo"));
    assert!(is_valid_layer_name("foo-build"));
}

#[test]
fn layer_name_validation_invalid() {
    assert!(!is_valid_layer_name("build"));
    assert!(!is_valid_layer_name("launch"));
    assert!(!is_valid_layer_name("store"));
    assert!(!is_valid_layer_name(""));
}
