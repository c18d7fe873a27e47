use zyn::{
    DependencyKind, DependencyRequest, DependencySection, DependencySpec, ManifestError,
    PackageJsonWire, PackageManifest, PackageNameError, PackageVersionError,
};

#[test]
fn reads_package_identity() {
    let manifest = parse(wire(Some("web-app"), Some("1.0.0"), &[], &[], &[], &[]));

    assert!(matches!(manifest.name(), Some(name) if name.as_str() == "web-app"));
    assert!(matches!(manifest.version(), Some(version) if version.as_str() == "1.0.0"));
}

#[test]
fn reads_dependency_sections() {
    let manifest = parse(wire(
        None,
        None,
        &[("@scope/ui", "^1.0.0")],
        &[("typescript", "^5.8.0")],
        &[("zod", "^3.23.8")],
        &[("react", "^19.0.0")],
    ));

    assert_eq!(manifest.dependencies().len(), 4);
    assert_registry_range(
        manifest.dependencies(),
        "@scope/ui",
        "@scope/ui",
        "^1.0.0",
        DependencySection::Dependencies,
    );
    assert_registry_range(
        manifest.dependencies(),
        "typescript",
        "typescript",
        "^5.8.0",
        DependencySection::DevDependencies,
    );
    assert_registry_range(
        manifest.dependencies(),
        "zod",
        "zod",
        "^3.23.8",
        DependencySection::OptionalDependencies,
    );
    assert_registry_range(
        manifest.dependencies(),
        "react",
        "react",
        "^19.0.0",
        DependencySection::PeerDependencies,
    );
}

#[test]
fn optional_dependencies_override_production_dependencies() {
    let manifest = parse(wire(
        None,
        None,
        &[("zod", "^3.0.0")],
        &[],
        &[("zod", "^3.23.8")],
        &[],
    ));

    assert_eq!(manifest.dependencies().len(), 1);
    assert_registry_range(
        manifest.dependencies(),
        "zod",
        "zod",
        "^3.23.8",
        DependencySection::OptionalDependencies,
    );
}

#[test]
fn peer_and_dev_dependencies_can_share_an_alias() {
    let manifest = parse(wire(
        None,
        None,
        &[],
        &[("react", "^19.0.0")],
        &[],
        &[("react", "^18.0.0 || ^19.0.0")],
    ));

    assert_eq!(manifest.dependencies().len(), 2);
    assert_eq!(
        manifest
            .dependencies()
            .iter()
            .filter(|dependency| dependency.alias.as_str() == "react")
            .count(),
        2
    );
}

#[test]
fn lists_sections_in_reading_order() {
    let manifest = parse(wire(
        None,
        None,
        &[("a", "1")],
        &[("b", "2")],
        &[("d", "4")],
        &[("c", "3")],
    ));
    let kinds: Vec<DependencyKind> = manifest.dependencies().iter().map(|d| d.kind).collect();
    assert_eq!(
        kinds,
        vec![
            DependencyKind::Production,
            DependencyKind::Development,
            DependencyKind::Peer,
            DependencyKind::Optional,
        ]
    );
}

#[test]
fn optional_dependencies_keep_other_kinds_of_same_alias() {
    let manifest = parse(wire(
        None,
        None,
        &[("zod", "^3.0.0")],
        &[("zod", "^3.1.0")],
        &[("zod", "^3.23.8")],
        &[],
    ));
    let kinds: Vec<DependencyKind> = manifest.dependencies().iter().map(|d| d.kind).collect();
    assert_eq!(kinds, vec![DependencyKind::Development, DependencyKind::Optional]);
}

#[test]
fn reports_invalid_identity_and_entries() {
    let bad_name = PackageManifest::from_package_json(wire(Some(".hidden"), None, &[], &[], &[], &[]));
    assert!(matches!(
        bad_name,
        Err(ManifestError::PackageName { ref value, source: PackageNameError::InvalidStart('.') })
            if value == ".hidden"
    ));

    let bad_version =
        PackageManifest::from_package_json(wire(Some("ok"), Some("1 0"), &[], &[], &[], &[]));
    assert!(matches!(
        bad_version,
        Err(ManifestError::PackageVersion { ref value, source: PackageVersionError::Whitespace })
            if value == "1 0"
    ));

    let bad_alias =
        PackageManifest::from_package_json(wire(None, None, &[], &[("Bad Name", "1")], &[], &[]));
    assert!(matches!(
        bad_alias,
        Err(ManifestError::DependencyName { section, ref alias, source: PackageNameError::Whitespace })
            if section == "devDependencies" && alias == "Bad Name"
    ));

    let bad_spec =
        PackageManifest::from_package_json(wire(None, None, &[], &[], &[], &[("react", "  ")]));
    assert!(matches!(
        bad_spec,
        Err(ManifestError::DependencySpec { section, ref alias, ref spec, .. })
            if section == "peerDependencies" && alias == "react" && spec == "  "
    ));
}

fn wire(
    name: Option<&str>,
    version: Option<&str>,
    dependencies: &[(&str, &str)],
    dev_dependencies: &[(&str, &str)],
    optional_dependencies: &[(&str, &str)],
    peer_dependencies: &[(&str, &str)],
) -> PackageJsonWire {
    fn entries(values: &[(&str, &str)]) -> Vec<(String, String)> {
        values
            .iter()
            .map(|(alias, spec)| (alias.to_string(), spec.to_string()))
            .collect()
    }
    PackageJsonWire {
        name: name.map(str::to_string),
        version: version.map(str::to_string),
        dependencies: entries(dependencies),
        dev_dependencies: entries(dev_dependencies),
        optional_dependencies: entries(optional_dependencies),
        peer_dependencies: entries(peer_dependencies),
    }
}

fn parse(package_json: PackageJsonWire) -> PackageManifest {
    match PackageManifest::from_package_json(package_json) {
        Ok(manifest) => manifest,
        Err(error) => panic!("unexpected manifest error: {error:?}"),
    }
}

fn assert_registry_range(
    dependencies: &[DependencyRequest],
    alias: &str,
    target: &str,
    range: &str,
    section: DependencySection,
) {
    let dependency = dependencies
        .iter()
        .find(|dependency| dependency.alias.as_str() == alias)
        .unwrap_or_else(|| panic!("missing dependency `{alias}`"));

    assert_eq!(dependency.kind, section.kind());
    assert!(matches!(
        dependency.spec,
        DependencySpec::RegistryRange { target: ref actual_target, range: ref actual_range }
            if actual_target.as_str() == target && actual_range.as_str() == range
    ));
}
