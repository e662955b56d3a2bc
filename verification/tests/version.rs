use acosmi::VERSION;

#[test]
fn version_is_wired() {
    assert_eq!(VERSION, "2.8.0");
}
