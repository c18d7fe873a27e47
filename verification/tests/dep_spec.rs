use zyn::{
    parse_dependency_spec, DependencySection, DependencySpec, ManifestError, PackageName,
    PackageNameError, PathSpec, TarballSpec, WorkspaceSpec,
};

#[test]
fn parses_dist_tags() {
    let spec = parse("latest");

    assert!(matches!(
        spec,
        DependencySpec::DistTag { ref target, ref tag }
            if target.as_str() == "react" && tag.as_str() == "latest"
    ));
}

#[test]
fn parses_dist_tags_with_dots() {
    let spec = parse("beta.1");

    assert!(matches!(
        spec,
        DependencySpec::DistTag { ref target, ref tag }
            if target.as_str() == "react" && tag.as_str() == "beta.1"
    ));
}

#[test]
fn parses_npm_aliases() {
    let spec = parse("npm:@types/bun@^1.2.0");

    assert!(matches!(
        spec,
        DependencySpec::RegistryRange { ref target, ref range }
            if target.as_str() == "@types/bun" && range.as_str() == "^1.2.0"
    ));
}

#[test]
fn parses_npm_aliases_without_ranges() {
    let spec = parse("npm:@scope/pkg");

    assert!(matches!(
        spec,
        DependencySpec::RegistryRange { ref target, ref range }
            if target.as_str() == "@scope/pkg" && range.as_str() == "*"
    ));
}

#[test]
fn parses_npm_aliases_with_dist_tags() {
    let spec = parse("npm:@scope/pkg@latest");

    assert!(matches!(
        spec,
        DependencySpec::DistTag { ref target, ref tag }
            if target.as_str() == "@scope/pkg" && tag.as_str() == "latest"
    ));
}

#[test]
fn rejects_npm_aliases_without_targets() {
    let alias = package_name("react");
    let spec = parse_dependency_spec(DependencySection::Dependencies, &alias, "npm:");

    assert!(matches!(
        spec,
        Err(ManifestError::DependencyTargetName {
            alias,
            target,
            ..
        }) if alias == "react" && target.is_empty()
    ));
}

#[test]
fn parses_file_specs() {
    let spec = parse("file:../can");

    assert!(matches!(
        spec,
        DependencySpec::Path(PathSpec { ref path }) if path == "../can"
    ));
}

#[test]
fn rejects_file_specs_without_paths() {
    let alias = package_name("react");

    for raw in ["file:", "file:   "] {
        let spec = parse_dependency_spec(DependencySection::Dependencies, &alias, raw);

        assert!(matches!(
            spec,
            Err(ManifestError::UnsupportedDependencySpec { .. })
        ));
    }
}

#[test]
fn parses_workspace_specs() {
    let spec = parse("workspace:*");

    assert!(matches!(
        spec,
        DependencySpec::Workspace(WorkspaceSpec { range: None })
    ));
}

#[test]
fn parses_tarball_specs() {
    let spec = parse("https://registry.npmjs.org/zod/-/zod-3.23.8.tgz");

    assert!(matches!(
        spec,
        DependencySpec::Tarball(TarballSpec { ref url, .. })
            if url.as_str() == "https://registry.npmjs.org/zod/-/zod-3.23.8.tgz"
    ));
}

#[test]
fn rejects_git_specs_until_supported() {
    let alias = package_name("react");
    let spec = parse_dependency_spec(
        DependencySection::Dependencies,
        &alias,
        "github:facebook/react",
    );

    assert!(matches!(
        spec,
        Err(ManifestError::UnsupportedDependencySpec { .. })
    ));
}

#[test]
fn rejects_path_like_specs_without_file_prefix() {
    let alias = package_name("react");
    let spec = parse_dependency_spec(DependencySection::Dependencies, &alias, "../react");

    assert!(matches!(
        spec,
        Err(ManifestError::UnsupportedDependencySpec { .. })
    ));
}

#[test]
fn treats_bare_numeric_versions_as_ranges() {
    let spec = parse("18");

    assert!(matches!(
        spec,
        DependencySpec::RegistryRange { ref target, ref range }
            if target.as_str() == "react" && range.as_str() == "18"
    ));
}

#[test]
fn parses_scoped_aliases() {
    let alias = package_name("@scope/ui");
    let spec = parse_dependency_spec(DependencySection::Dependencies, &alias, "^0.9.0");

    assert!(matches!(
        spec,
        Ok(DependencySpec::RegistryRange { target, range })
            if target.as_str() == "@scope/ui" && range.as_str() == "^0.9.0"
    ));
}

#[test]
fn trims_values_and_reads_workspace_ranges() {
    assert!(matches!(
        parse("  workspace:^1.2.0 "),
        DependencySpec::Workspace(WorkspaceSpec { range: Some(ref range) }) if range.as_str() == "^1.2.0"
    ));
    assert!(matches!(
        parse("workspace:"),
        DependencySpec::Workspace(WorkspaceSpec { range: None })
    ));
    assert!(matches!(
        parse("\t~1.0.0\n"),
        DependencySpec::RegistryRange { ref range, .. } if range.as_str() == "~1.0.0"
    ));
}

#[test]
fn reports_empty_values_and_bad_npm_targets() {
    let alias = package_name("react");
    let empty = parse_dependency_spec(DependencySection::DevDependencies, &alias, "   ");
    assert!(matches!(
        empty,
        Err(ManifestError::DependencySpec { section, ref spec, .. })
            if section == "devDependencies" && spec == "   "
    ));
    let missing_range =
        parse_dependency_spec(DependencySection::Dependencies, &alias, "npm:react@");
    assert!(matches!(
        missing_range,
        Err(ManifestError::DependencySpec { ref spec, .. }) if spec == "npm:react@"
    ));
    let bad_target = parse_dependency_spec(DependencySection::Dependencies, &alias, "npm:.x@1");
    assert!(matches!(
        bad_target,
        Err(ManifestError::DependencyTargetName { ref target, source: PackageNameError::InvalidStart('.'), .. })
            if target == ".x"
    ));
}

#[test]
fn rejects_links_protocols_and_paths() {
    let alias = package_name("react");
    for raw in [
        "link:../react",
        "portal:../react",
        "catalog:",
        "patch:react@1",
        "ftp://example.com/react.tgz",
        "user/repo",
        "git+https://github.com/facebook/react.git",
        "https://example.com/react.zip",
    ] {
        assert!(
            matches!(
                parse_dependency_spec(DependencySection::Dependencies, &alias, raw),
                Err(ManifestError::UnsupportedDependencySpec { .. })
            ),
            "{raw} should be unsupported"
        );
    }
    assert!(matches!(
        parse("http://example.com/react.tar.gz"),
        DependencySpec::Tarball(TarballSpec { ref url, integrity: None }) if url.as_str() == "http://example.com/react.tar.gz"
    ));
}

fn parse(raw: &str) -> DependencySpec {
    let alias = package_name("react");
    match parse_dependency_spec(DependencySection::Dependencies, &alias, raw) {
        Ok(spec) => spec,
        Err(error) => panic!("unexpected spec error: {error:?}"),
    }
}

fn package_name(value: &str) -> PackageName {
    match PackageName::new(value) {
        Ok(name) => name,
        Err(error) => panic!("unexpected package name error: {error:?}"),
    }
}
