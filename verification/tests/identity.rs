use zyn::{NAME, VERSION};

#[test]
fn exposes_package_identity() {
    assert_eq!(NAME, "zyn");
    assert!(!VERSION.is_empty());
}
