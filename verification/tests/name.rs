use zyn::{PackageName, PackageNameError};

#[test]
fn accepts_scoped_names() {
    let name = PackageName::new("@zyn/two-dot");

    assert!(matches!(name, Ok(name) if name.as_str() == "@zyn/two-dot"));
}

#[test]
fn accepts_existing_npm_package_name_forms() {
    for value in [
        "react",
        "a.b-c_d",
        "Foo",
        "1.2.3",
        "@scope/package",
        "@scope/package.js",
    ] {
        assert!(PackageName::new(value).is_ok(), "{value} should be valid");
    }
}

#[test]
fn rejects_empty_names() {
    assert_eq!(PackageName::new(""), Err(PackageNameError::Empty));
}

#[test]
fn rejects_whitespace() {
    for value in ["not a package", " package", "package "] {
        assert_eq!(PackageName::new(value), Err(PackageNameError::Whitespace));
    }
}

#[test]
fn rejects_invalid_starting_characters() {
    for (value, character) in [(".bin", '.'), ("-package", '-'), ("_package", '_')] {
        assert_eq!(
            PackageName::new(value),
            Err(PackageNameError::InvalidStart(character))
        );
    }
}

#[test]
fn rejects_invalid_scoped_names() {
    assert_eq!(
        PackageName::new("@scope"),
        Err(PackageNameError::InvalidScopedName)
    );
    assert_eq!(
        PackageName::new("@scope/"),
        Err(PackageNameError::InvalidScopedName)
    );
    assert_eq!(
        PackageName::new("@scope/pkg/extra"),
        Err(PackageNameError::InvalidScopedName)
    );
    assert_eq!(
        PackageName::new("@scope/.pkg"),
        Err(PackageNameError::InvalidScopedName)
    );
}

#[test]
fn rejects_slashes_in_unscoped_names() {
    assert_eq!(
        PackageName::new("foo/bar"),
        Err(PackageNameError::InvalidCharacter('/'))
    );
}

#[test]
fn rejects_characters_that_are_not_url_safe() {
    for (value, character) in [
        ("package:name", ':'),
        ("package\\name", '\\'),
        ("café", 'é'),
    ] {
        assert_eq!(
            PackageName::new(value),
            Err(PackageNameError::InvalidCharacter(character))
        );
    }
}

#[test]
fn rejects_reserved_names_without_case_sensitivity() {
    for value in ["node_modules", "Node_Modules", "favicon.ico", "FAVICON.ICO"] {
        assert_eq!(PackageName::new(value), Err(PackageNameError::Reserved));
    }
}

#[test]
fn rejects_unicode_whitespace_before_other_rules() {
    assert_eq!(
        PackageName::new("pkg\u{3000}name"),
        Err(PackageNameError::Whitespace)
    );
    assert_eq!(
        PackageName::new("node_modules\u{a0}"),
        Err(PackageNameError::Whitespace)
    );
}

#[test]
fn reports_invalid_characters_of_scope_before_name() {
    assert_eq!(
        PackageName::new("@sc:pe/na:me"),
        Err(PackageNameError::InvalidCharacter(':'))
    );
    assert_eq!(
        PackageName::new("@scope/na+me"),
        Err(PackageNameError::InvalidCharacter('+'))
    );
    assert_eq!(
        PackageName::new("@/name"),
        Err(PackageNameError::InvalidScopedName)
    );
}

#[test]
fn reserved_names_must_match_whole_name() {
    assert!(PackageName::new("node_modules2").is_ok());
    assert!(PackageName::new("favicon.ico.js").is_ok());
}

#[test]
fn describes_package_name_errors() {
    assert_eq!(
        PackageNameError::InvalidStart('.').message(),
        "package name cannot start with `.`"
    );
    assert_eq!(
        PackageNameError::InvalidCharacter(':').message(),
        "package name cannot contain `:`"
    );
    assert_eq!(
        PackageNameError::InvalidScopedName.message(),
        "scoped package name must be `@scope/name`"
    );
    assert_eq!(PackageNameError::Reserved.message(), "package name is reserved");
}

#[test]
fn cloned_names_keep_their_text() {
    let name = PackageName::new("@scope/ui").unwrap();
    assert_eq!(name.clone().as_str(), "@scope/ui");
}
