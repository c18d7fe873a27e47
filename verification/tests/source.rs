use zyn::{
    GitCommit, Integrity, NpmSource, PackageContentHash, PackageName, PackageSource,
    PackageSourceId, PackageVersion, PatchContentHash, PathSource, SourceTextError, SourceUrl,
    VendoredSource, WorkspaceSource,
};

#[test]
fn distinguishes_editable_sources_from_registry_sources() {
    let registry = PackageSource::Npm(NpmSource {
        registry: source_url("https://registry.npmjs.org"),
        tarball: source_url("https://registry.npmjs.org/is-even/-/is-even-1.0.0.tgz"),
        integrity: integrity("sha512-example"),
    });
    let vendored = PackageSource::Vendored(VendoredSource {
        path: ".zyn/deps/is-even@1.0.0".into(),
        content_hash: package_content_hash("sha256-example"),
    });

    assert!(!registry.is_local());
    assert!(vendored.is_local());
}

#[test]
fn package_source_can_use_non_npm_sources() {
    let name = match PackageName::new("toolkit") {
        Ok(name) => name,
        Err(error) => panic!("unexpected package name error: {error:?}"),
    };

    let package = package_source(
        name,
        None,
        PackageSource::Path(PathSource {
            path: "../toolkit".into(),
        }),
    );

    assert!(package.version().is_none());
    assert!(package.source().is_local());
}

#[test]
fn workspace_sources_are_local() {
    let workspace = PackageSource::Workspace(WorkspaceSource {
        path: "packages/ui".into(),
    });
    assert!(workspace.is_local());
}

#[test]
fn source_texts_reject_empty_values() {
    assert_eq!(SourceUrl::new(""), Err(SourceTextError::Empty));
    assert_eq!(Integrity::new(""), Err(SourceTextError::Empty));
    assert_eq!(GitCommit::new(""), Err(SourceTextError::Empty));
    assert_eq!(PackageContentHash::new(""), Err(SourceTextError::Empty));
    assert_eq!(PatchContentHash::new(""), Err(SourceTextError::Empty));
    assert_eq!(GitCommit::new("abc123").unwrap().as_str(), "abc123");
    assert_eq!(PatchContentHash::new("sha256-x").unwrap().as_str(), "sha256-x");
    assert_eq!(SourceTextError::Empty.message(), "source text cannot be empty");
}

fn package_source(
    name: PackageName,
    version: Option<PackageVersion>,
    source: PackageSource,
) -> PackageSourceId {
    match PackageSourceId::new(name, version, source) {
        Ok(package) => package,
        Err(error) => panic!("unexpected package source id error: {error:?}"),
    }
}

fn source_url(value: &str) -> SourceUrl {
    match SourceUrl::new(value) {
        Ok(url) => url,
        Err(error) => panic!("unexpected source url error: {error:?}"),
    }
}

fn integrity(value: &str) -> Integrity {
    match Integrity::new(value) {
        Ok(integrity) => integrity,
        Err(error) => panic!("unexpected integrity error: {error:?}"),
    }
}

fn package_content_hash(value: &str) -> PackageContentHash {
    match PackageContentHash::new(value) {
        Ok(hash) => hash,
        Err(error) => panic!("unexpected content hash error: {error:?}"),
    }
}
