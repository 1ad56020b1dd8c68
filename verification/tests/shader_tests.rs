use renderkit::shader::ShaderProgram;

#[test]
fn fresh_program_has_nothing_cached_and_is_unlinked() {
    let p = ShaderProgram::new();
    assert!(!p.linked());
    assert_eq!(p.cached_location(&"projModelView".to_string()), None);
}

#[test]
fn resolved_locations_are_cached_per_name() {
    let mut p = ShaderProgram::new();
    p.link();
    assert!(p.linked());
    p.store_location("projModelView".to_string(), 2);
    p.store_location("textureSampler".to_string(), 0);
    // the invalid-location sentinel for an optimized-out uniform is cached too
    p.store_location("unusedTint".to_string(), -1);
    assert_eq!(p.cached_location(&"projModelView".to_string()), Some(2));
    assert_eq!(p.cached_location(&"textureSampler".to_string()), Some(0));
    assert_eq!(p.cached_location(&"unusedTint".to_string()), Some(-1));
    assert_eq!(p.cached_location(&"missing".to_string()), None);
}
