use zyn::{
    DependencyKind, DependencyRequest, DependencySpec, DistTag, GitReference, NonEmptyStringError,
    PackageName, Subdirectory, VersionRange,
};

#[test]
fn keeps_requested_range_unresolved() {
    let alias = match PackageName::new("react") {
        Ok(alias) => alias,
        Err(error) => panic!("unexpected package name error: {error:?}"),
    };
    let range = match VersionRange::new("^19.0.0") {
        Ok(range) => range,
        Err(error) => panic!("unexpected range error: {error:?}"),
    };

    let request = DependencyRequest::new(
        alias.clone(),
        DependencySpec::RegistryRange {
            target: alias,
            range,
        },
        DependencyKind::Production,
    );

    assert!(matches!(
        request.spec,
        DependencySpec::RegistryRange { ref range, .. } if range.as_str() == "^19.0.0"
    ));
}

#[test]
fn non_empty_texts_reject_empty_values() {
    assert_eq!(VersionRange::new(""), Err(NonEmptyStringError::Empty));
    assert_eq!(DistTag::new(""), Err(NonEmptyStringError::Empty));
    assert_eq!(GitReference::new(""), Err(NonEmptyStringError::Empty));
    assert_eq!(Subdirectory::new(""), Err(NonEmptyStringError::Empty));
    assert_eq!(GitReference::new("main").unwrap().as_str(), "main");
    assert_eq!(Subdirectory::new("packages/ui").unwrap().as_str(), "packages/ui");
    assert_eq!(DistTag::new("next").unwrap().as_str(), "next");
    assert_eq!(NonEmptyStringError::Empty.message(), "value cannot be empty");
}
