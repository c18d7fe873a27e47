use zyn::{
    DependencyEdge, DependencyKind, DependencySpec, Integrity, Lockfile, LockfileError, NpmSource,
    PackageContentHash, PackageName, PackageNodeId, PackageRevisionId, PackageSource,
    PackageSourceId, PackageVersion, ResolvedPackageId, SourceUrl, VersionRange,
    LOCKFILE_REVISION,
};

#[test]
fn starts_at_version_one() {
    let lockfile = Lockfile::default();

    assert_eq!(lockfile.version, 1);
    assert_eq!(lockfile.revision, LOCKFILE_REVISION);
    assert!(lockfile.is_empty());
}

#[test]
fn rejects_edges_with_missing_packages() {
    let from = package_node("web-app", "1.0.0");
    let to = package_node("left-pad", "1.3.0");
    let edge = DependencyEdge {
        from: from.clone(),
        to,
        alias: package_name("left-pad"),
        kind: DependencyKind::Production,
        requested: DependencySpec::RegistryRange {
            target: package_name("left-pad"),
            range: version_range("^1.3.0"),
        },
    };

    let lockfile = Lockfile::new(vec![from], vec![edge]);

    assert_eq!(lockfile, Err(LockfileError::UnknownEdgeEndpoint));
}

#[test]
fn accepts_edges_between_locked_packages() {
    let from = package_node("web-app", "1.0.0");
    let to = package_node("left-pad", "1.3.0");
    let edge = edge_between(&from, &to);

    let lockfile = Lockfile::new(vec![from, to], vec![edge]).expect("valid lockfile");

    assert_eq!(lockfile.version, 1);
    assert_eq!(lockfile.revision, 0);
    assert_eq!(lockfile.packages.len(), 2);
    assert_eq!(lockfile.edges.len(), 1);
    assert!(!lockfile.is_empty());
}

#[test]
fn rejects_duplicate_packages_and_edges() {
    let from = package_node("web-app", "1.0.0");
    let to = package_node("left-pad", "1.3.0");

    assert_eq!(
        Lockfile::new(vec![from.clone(), from.clone()], Vec::new()),
        Err(LockfileError::DuplicatePackage)
    );
    assert_eq!(
        Lockfile::new(
            vec![from.clone(), to.clone()],
            vec![edge_between(&from, &to), edge_between(&from, &to)]
        ),
        Err(LockfileError::DuplicateEdge)
    );
    assert_eq!(
        LockfileError::UnknownEdgeEndpoint.message(),
        "lockfile edge points to a package that is not locked"
    );
}

fn edge_between(from: &PackageNodeId, to: &PackageNodeId) -> DependencyEdge {
    DependencyEdge {
        from: from.clone(),
        to: to.clone(),
        alias: package_name("left-pad"),
        kind: DependencyKind::Production,
        requested: DependencySpec::RegistryRange {
            target: package_name("left-pad"),
            range: version_range("^1.3.0"),
        },
    }
}

fn package_node(name: &str, version: &str) -> PackageNodeId {
    PackageNodeId::new(resolved_package(name, version))
}

fn resolved_package(name: &str, version: &str) -> ResolvedPackageId {
    ResolvedPackageId::new(
        package_revision(name, version),
        package_artifact_hash(name, version),
    )
}

fn package_revision(name: &str, version: &str) -> PackageRevisionId {
    PackageRevisionId::unpatched(package_source(name, version))
}

fn package_artifact_hash(name: &str, version: &str) -> PackageContentHash {
    package_content_hash(&format!("sha256-{name}-{version}"))
}

fn package_source(name: &str, version: &str) -> PackageSourceId {
    match PackageSourceId::new(
        package_name(name),
        Some(package_version(version)),
        npm_source(name, version),
    ) {
        Ok(source) => source,
        Err(error) => panic!("unexpected package source id error: {error:?}"),
    }
}

fn package_name(value: &str) -> PackageName {
    match PackageName::new(value) {
        Ok(name) => name,
        Err(error) => panic!("unexpected package name error: {error:?}"),
    }
}

fn package_version(value: &str) -> PackageVersion {
    match PackageVersion::new(value) {
        Ok(version) => version,
        Err(error) => panic!("unexpected package version error: {error:?}"),
    }
}

fn version_range(value: &str) -> VersionRange {
    match VersionRange::new(value) {
        Ok(range) => range,
        Err(error) => panic!("unexpected version range error: {error:?}"),
    }
}

fn npm_source(name: &str, version: &str) -> PackageSource {
    PackageSource::Npm(NpmSource {
        registry: source_url("https://registry.npmjs.org"),
        tarball: source_url(&format!(
            "https://registry.npmjs.org/{name}/-/{name}-{version}.tgz"
        )),
        integrity: integrity(&format!("sha512-{name}-{version}")),
    })
}

fn source_url(value: &str) -> SourceUrl {
    match SourceUrl::new(value) {
        Ok(url) => url,
        Err(error) => panic!("unexpected source url error: {error:?}"),
    }
}

fn integrity(value: &str) -> Integrity {
    match Integrity::new(value) {
        Ok(integrity) => integrity,
        Err(error) => panic!("unexpected integrity error: {error:?}"),
    }
}

fn package_content_hash(value: &str) -> PackageContentHash {
    match PackageContentHash::new(value) {
        Ok(hash) => hash,
        Err(error) => panic!("unexpected content hash error: {error:?}"),
    }
}
