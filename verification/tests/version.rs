use zyn::{PackageVersion, PackageVersionError};

#[test]
fn accepts_npm_versions() {
    let version = PackageVersion::new("1.2.3-beta.1");

    assert!(matches!(version, Ok(version) if version.as_str() == "1.2.3-beta.1"));
}

#[test]
fn rejects_empty_and_spaced_versions() {
    assert_eq!(PackageVersion::new(""), Err(PackageVersionError::Empty));
    assert_eq!(
        PackageVersion::new("1.0.0 beta"),
        Err(PackageVersionError::Whitespace)
    );
    assert_eq!(
        PackageVersion::new("\t1.0.0"),
        Err(PackageVersionError::Whitespace)
    );
}
