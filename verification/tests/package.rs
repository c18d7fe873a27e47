use zyn::{
    Integrity, NpmSource, PackageName, PackageRevisionId, PackageSource, PackageSourceId,
    PackageSourceIdError, PackageVersion, PatchContentHash, PatchId, PatchStack, SourceUrl,
};

#[test]
fn requires_version_for_npm_packages() {
    let package = PackageSourceId::new(package_name("left-pad"), None, npm_source());

    assert_eq!(
        package,
        Err(PackageSourceIdError::MissingVersionForRegistryPackage)
    );
}

#[test]
fn patch_stack_is_part_of_revision_identity() {
    let source = package_source("react", "19.0.0");
    let unpatched = PackageRevisionId::unpatched(source.clone());
    let patched = PackageRevisionId::new(source, patch_stack(vec![patch_id("sha256-patch")]));

    assert_ne!(unpatched, patched);
}

#[test]
fn unpatched_revisions_have_empty_stacks() {
    let revision = PackageRevisionId::unpatched(package_source("react", "19.0.0"));
    assert!(revision.patch_stack().is_empty());
    assert_eq!(revision.source().name().as_str(), "react");
    assert_eq!(revision.source().version().map(|v| v.as_str()), Some("19.0.0"));
    assert_eq!(
        PackageSourceIdError::MissingVersionForRegistryPackage.message(),
        "registry packages must have a resolved version"
    );
}

fn package_source(name: &str, version: &str) -> PackageSourceId {
    match PackageSourceId::new(
        package_name(name),
        Some(package_version(version)),
        npm_source_for(name, version),
    ) {
        Ok(package) => package,
        Err(error) => panic!("unexpected package source id error: {error:?}"),
    }
}

fn package_name(value: &str) -> PackageName {
    match PackageName::new(value) {
        Ok(name) => name,
        Err(error) => panic!("unexpected package name error: {error:?}"),
    }
}

fn package_version(value: &str) -> PackageVersion {
    match PackageVersion::new(value) {
        Ok(version) => version,
        Err(error) => panic!("unexpected package version error: {error:?}"),
    }
}

fn npm_source() -> PackageSource {
    npm_source_for("left-pad", "1.3.0")
}

fn npm_source_for(name: &str, version: &str) -> PackageSource {
    PackageSource::Npm(NpmSource {
        registry: source_url("https://registry.npmjs.org"),
        tarball: source_url(&format!(
            "https://registry.npmjs.org/{name}/-/{name}-{version}.tgz"
        )),
        integrity: integrity(&format!("sha512-{name}-{version}")),
    })
}

fn source_url(value: &str) -> SourceUrl {
    match SourceUrl::new(value) {
        Ok(url) => url,
        Err(error) => panic!("unexpected source url error: {error:?}"),
    }
}

fn integrity(value: &str) -> Integrity {
    match Integrity::new(value) {
        Ok(integrity) => integrity,
        Err(error) => panic!("unexpected integrity error: {error:?}"),
    }
}

fn patch_id(value: &str) -> PatchId {
    PatchId::new(patch_content_hash(value))
}

fn patch_stack(patches: Vec<PatchId>) -> PatchStack {
    match PatchStack::new(patches) {
        Ok(stack) => stack,
        Err(error) => panic!("unexpected patch stack error: {error:?}"),
    }
}

fn patch_content_hash(value: &str) -> PatchContentHash {
    match PatchContentHash::new(value) {
        Ok(hash) => hash,
        Err(error) => panic!("unexpected content hash error: {error:?}"),
    }
}
