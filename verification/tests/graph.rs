use zyn::{
    Integrity, NpmSource, PackageContentHash, PackageName, PackageNodeId, PackageRevisionId,
    PackageSource, PackageSourceId, PackageVersion, PatchContentHash, PatchId, PatchStack,
    PeerContext, PeerContextError, PeerResolution, PlatformContext, ResolvedPackageId, SourceUrl,
};

#[test]
fn peer_context_is_part_of_node_identity() {
    let foo_with_react_18 = foo_node().with_peer_context(peer_context(vec![peer_resolution(
        "react",
        react_package("18.3.1"),
    )]));
    let foo_with_react_19 = foo_node().with_peer_context(peer_context(vec![peer_resolution(
        "react",
        react_package("19.0.0"),
    )]));

    assert_ne!(foo_with_react_18, foo_with_react_19);
}

#[test]
fn peer_context_identity_is_order_insensitive() {
    let left = peer_context(vec![
        peer_resolution("react", react_package("18.3.1")),
        peer_resolution("scheduler", scheduler_package()),
    ]);
    let right = peer_context(vec![
        peer_resolution("scheduler", scheduler_package()),
        peer_resolution("react", react_package("18.3.1")),
    ]);

    assert_eq!(left, right);
}

#[test]
fn peer_context_rejects_duplicate_names() {
    let context = PeerContext::new(vec![
        peer_resolution("react", react_package("18.3.1")),
        peer_resolution("react", react_package("19.0.0")),
    ]);

    assert!(matches!(context, Err(PeerContextError::DuplicatePeer(_))));
}

#[test]
fn peer_context_distinguishes_patched_providers() {
    let unpatched = foo_node().with_peer_context(peer_context(vec![peer_resolution(
        "react",
        react_package("19.0.0"),
    )]));
    let patched = foo_node().with_peer_context(peer_context(vec![peer_resolution(
        "react",
        patched_react_package("19.0.0"),
    )]));

    assert_ne!(unpatched, patched);
}

#[test]
fn peer_context_lists_peers_by_name() {
    let context = peer_context(vec![
        peer_resolution("scheduler", scheduler_package()),
        peer_resolution("@types/react", react_package("19.0.0")),
        peer_resolution("react", react_package("19.0.0")),
    ]);
    let names: Vec<&str> = context.peers().iter().map(|p| p.name().as_str()).collect();
    assert_eq!(names, vec!["@types/react", "react", "scheduler"]);
    assert!(PeerContext::empty().peers().is_empty());
}

#[test]
fn duplicate_peer_names_the_repeated_peer() {
    let context = PeerContext::new(vec![
        peer_resolution("scheduler", scheduler_package()),
        peer_resolution("react", react_package("18.3.1")),
        peer_resolution("react", react_package("19.0.0")),
    ]);
    match context {
        Err(error) => {
            assert_eq!(error, PeerContextError::DuplicatePeer(package_name("react")));
            assert_eq!(
                error.message(),
                "peer context contains duplicate peer `react`"
            );
        }
        Ok(_) => panic!("duplicate peers were accepted"),
    }
}

#[test]
fn platform_context_is_part_of_node_identity() {
    let linux = foo_node().with_platform_context(PlatformContext {
        os: Some("linux".to_string()),
        arch: None,
    });
    let plain = foo_node();
    assert_ne!(linux, plain);
    assert_eq!(linux.platform_context().os.as_deref(), Some("linux"));
    assert_eq!(plain.platform_context(), &PlatformContext::default());
    assert_eq!(plain.peer_context(), &PeerContext::empty());
    assert_eq!(plain.package(), &resolved_package("foo", "1.0.0"));
}

fn foo_node() -> PackageNodeId {
    package_node("foo", "1.0.0")
}

fn react_package(version: &str) -> ResolvedPackageId {
    resolved_package("react", version)
}

fn patched_react_package(version: &str) -> ResolvedPackageId {
    ResolvedPackageId::new(
        PackageRevisionId::new(
            package_source("react", version),
            patch_stack(vec![patch_id("sha256-react-patch")]),
        ),
        package_content_hash("sha256-react-patched"),
    )
}

fn scheduler_package() -> ResolvedPackageId {
    resolved_package("scheduler", "0.25.0")
}

fn package_node(name: &str, version: &str) -> PackageNodeId {
    PackageNodeId::new(resolved_package(name, version))
}

fn resolved_package(name: &str, version: &str) -> ResolvedPackageId {
    ResolvedPackageId::new(
        package_revision(name, version),
        package_artifact_hash(name, version),
    )
}

fn package_artifact_hash(name: &str, version: &str) -> PackageContentHash {
    package_content_hash(&format!("sha256-{name}-{version}"))
}

fn package_revision(name: &str, version: &str) -> PackageRevisionId {
    PackageRevisionId::unpatched(package_source(name, version))
}

fn package_source(name: &str, version: &str) -> PackageSourceId {
    match PackageSourceId::new(
        package_name(name),
        Some(package_version(version)),
        npm_source(name, version),
    ) {
        Ok(source) => source,
        Err(error) => panic!("unexpected package source id error: {error:?}"),
    }
}

fn patch_id(value: &str) -> PatchId {
    PatchId::new(patch_content_hash(value))
}

fn patch_stack(patches: Vec<PatchId>) -> PatchStack {
    match PatchStack::new(patches) {
        Ok(stack) => stack,
        Err(error) => panic!("unexpected patch stack error: {error:?}"),
    }
}

fn peer_context(peers: Vec<PeerResolution>) -> PeerContext {
    match PeerContext::new(peers) {
        Ok(context) => context,
        Err(error) => panic!("unexpected peer context error: {error:?}"),
    }
}

fn peer_resolution(name: &str, package: ResolvedPackageId) -> PeerResolution {
    PeerResolution::new(package_name(name), package)
}

fn npm_source(name: &str, version: &str) -> PackageSource {
    PackageSource::Npm(NpmSource {
        registry: source_url("https://registry.npmjs.org"),
        tarball: source_url(&format!(
            "https://registry.npmjs.org/{name}/-/{name}-{version}.tgz"
        )),
        integrity: integrity(&format!("sha512-{name}-{version}")),
    })
}

fn package_name(value: &str) -> PackageName {
    match PackageName::new(value) {
        Ok(name) => name,
        Err(error) => panic!("unexpected package name error: {error:?}"),
    }
}

fn package_version(value: &str) -> PackageVersion {
    match PackageVersion::new(value) {
        Ok(version) => version,
        Err(error) => panic!("unexpected package version error: {error:?}"),
    }
}

fn source_url(value: &str) -> SourceUrl {
    match SourceUrl::new(value) {
        Ok(url) => url,
        Err(error) => panic!("unexpected source url error: {error:?}"),
    }
}

fn integrity(value: &str) -> Integrity {
    match Integrity::new(value) {
        Ok(integrity) => integrity,
        Err(error) => panic!("unexpected integrity error: {error:?}"),
    }
}

fn package_content_hash(value: &str) -> PackageContentHash {
    match PackageContentHash::new(value) {
        Ok(hash) => hash,
        Err(error) => panic!("unexpected package content hash error: {error:?}"),
    }
}

fn patch_content_hash(value: &str) -> PatchContentHash {
    match PatchContentHash::new(value) {
        Ok(hash) => hash,
        Err(error) => panic!("unexpected patch content hash error: {error:?}"),
    }
}
