use std::path::Path;

use zyn::{
    EdgePatchSelector, Integrity, ManifestPatchEffect, NpmSource, PackageContentHash,
    PackageName, PackageRevisionId, PackageSource, PackageSourceId, PackageVersion, PatchCatalog,
    PatchCatalogError, PatchContentHash, PatchDefinition, PatchEffects, PatchEffectsError,
    PatchId, PatchPath, PatchPathError, PatchSelection, PatchSelectionError, PatchSelector,
    PatchStack, PatchStackError, PatchTarget, ResolvedPackageId, SourcePatchEffect, SourceUrl,
    PATCHES_DIR,
};

#[test]
fn patch_stack_order_is_part_of_identity() {
    let first = patch_id("sha256-first");
    let second = patch_id("sha256-second");

    let left = patch_stack(vec![first.clone(), second.clone()]);
    let right = patch_stack(vec![second, first]);

    assert_ne!(left, right);
}

#[test]
fn patch_stack_rejects_duplicate_patches() {
    let patch = patch_id("sha256-patch");
    let stack = PatchStack::new(vec![patch.clone(), patch.clone()]);

    assert_eq!(stack, Err(PatchStackError::DuplicatePatch(patch)));
}

#[test]
fn patch_selection_rejects_empty_stacks() {
    let selection = PatchSelection::new(
        PatchSelector::Global(PatchTarget::Package(package_name("react"))),
        PatchStack::empty(),
    );

    assert_eq!(selection, Err(PatchSelectionError::EmptyPatchStack));
}

#[test]
fn patch_path_must_stay_inside_patches_directory() {
    assert_eq!(
        PatchPath::new(&format!("{PATCHES_DIR}/react.patch"))
            .map(|path| path.as_path().to_path_buf()),
        Ok(format!("{PATCHES_DIR}/react.patch").into())
    );
    assert_eq!(
        PatchPath::new("react.patch"),
        Err(PatchPathError::OutsidePatchesDirectory)
    );
    assert_eq!(
        PatchPath::new("patches/../react.patch"),
        Err(PatchPathError::ParentDirectory)
    );
    assert_eq!(
        PatchPath::new("patches//react.patch"),
        Err(PatchPathError::EmptySegment)
    );
    assert_eq!(
        PatchPath::new("patches/./react.patch"),
        Err(PatchPathError::CurrentDirectory)
    );
    assert_eq!(
        PatchPath::new("/tmp/react.patch"),
        Err(PatchPathError::Absolute)
    );
    assert_eq!(
        PatchPath::new("patches\\react.patch"),
        Err(PatchPathError::Absolute)
    );
    assert_eq!(
        PatchPath::new("patches/react.diff"),
        Err(PatchPathError::MissingPatchExtension)
    );
    assert_eq!(
        PatchPath::new("patches/"),
        Err(PatchPathError::MissingFilename)
    );
}

#[test]
fn patch_path_exposes_manifest_safe_text() {
    let path = patch_path("patches/react.patch");

    assert_eq!(path.as_str(), "patches/react.patch");
    assert_eq!(path.as_path(), Path::new("patches/react.patch"));
}

#[test]
fn patch_path_checks_in_order() {
    assert_eq!(PatchPath::new(""), Err(PatchPathError::Empty));
    assert_eq!(PatchPath::new("patches"), Err(PatchPathError::MissingFilename));
    assert_eq!(
        PatchPath::new("patches/a//b.patch"),
        Err(PatchPathError::EmptySegment)
    );
    assert_eq!(
        PatchPath::new("patches/../.."),
        Err(PatchPathError::ParentDirectory)
    );
    assert_eq!(
        PatchPath::new("patches/react/."),
        Err(PatchPathError::CurrentDirectory)
    );
    assert_eq!(
        PatchPath::new("patches2/react.patch"),
        Err(PatchPathError::OutsidePatchesDirectory)
    );
    assert_eq!(
        PatchPath::new("patches/nested/react.patch").map(|p| p.as_str().to_string()),
        Ok("patches/nested/react.patch".to_string())
    );
    assert_eq!(
        PatchPathError::MissingPatchExtension.message(),
        "patch path must end with `.patch`"
    );
}

#[test]
fn patch_definition_records_base_and_effects() {
    let definition = patch_definition(
        "sha256-react-patch",
        "patches/react.patch",
        resolved_package("react", "19.0.0"),
        PatchEffects::manifest_resolution(),
    );

    assert_eq!(definition.id(), &patch_id("sha256-react-patch"));
    assert_eq!(definition.base(), &resolved_package("react", "19.0.0"));
    assert_eq!(
        definition.effects().manifest(),
        ManifestPatchEffect::Resolution
    );
    assert_eq!(definition.effects().source(), SourcePatchEffect::Unchanged);
}

#[test]
fn patch_effects_reject_empty_effects() {
    let effects = PatchEffects::new(ManifestPatchEffect::Unchanged, SourcePatchEffect::Unchanged);

    assert_eq!(effects, Err(PatchEffectsError::Empty));
}

#[test]
fn patch_effects_can_describe_manifest_and_source_changes() {
    let effects = PatchEffects::new(
        ManifestPatchEffect::MetadataOnly,
        SourcePatchEffect::Changes,
    );

    assert_eq!(
        effects.map(|effects| (effects.manifest(), effects.source())),
        Ok((ManifestPatchEffect::MetadataOnly, SourcePatchEffect::Changes))
    );
}

#[test]
fn patch_effect_defaults_change_nothing() {
    assert_eq!(ManifestPatchEffect::default(), ManifestPatchEffect::Unchanged);
    assert_eq!(SourcePatchEffect::default(), SourcePatchEffect::Unchanged);
    let source_only = PatchEffects::source_only();
    assert_eq!(source_only.manifest(), ManifestPatchEffect::Unchanged);
    assert_eq!(source_only.source(), SourcePatchEffect::Changes);
}

#[test]
fn patch_catalog_rejects_duplicate_definitions() {
    let first = patch_definition(
        "sha256-react-patch",
        "patches/react.patch",
        resolved_package("react", "19.0.0"),
        PatchEffects::source_only(),
    );
    let second = patch_definition(
        "sha256-react-patch",
        "patches/react-again.patch",
        resolved_package("react", "19.0.0"),
        PatchEffects::source_only(),
    );

    let catalog = PatchCatalog::new(vec![first, second], Vec::new());

    assert_eq!(
        catalog,
        Err(PatchCatalogError::DuplicateDefinition(patch_id(
            "sha256-react-patch"
        )))
    );
}

#[test]
fn patch_catalog_rejects_unknown_selected_patches() {
    let unknown = patch_id("sha256-missing-patch");
    let selection = patch_selection(
        PatchSelector::Global(PatchTarget::Package(package_name("react"))),
        patch_stack(vec![unknown.clone()]),
    );

    let catalog = PatchCatalog::new(Vec::new(), vec![selection]);

    assert_eq!(
        catalog,
        Err(PatchCatalogError::UnknownSelectedPatch(unknown))
    );
}

#[test]
fn patch_catalog_rejects_selected_patches_that_cannot_match_target() {
    let definition = patch_definition(
        "sha256-vue-patch",
        "patches/vue.patch",
        resolved_package("vue", "3.5.0"),
        PatchEffects::source_only(),
    );
    let selection = patch_selection(
        PatchSelector::Global(PatchTarget::Package(package_name("react"))),
        patch_stack(vec![definition.id().clone()]),
    );

    let catalog = PatchCatalog::new(vec![definition], vec![selection]);

    assert_eq!(
        catalog,
        Err(PatchCatalogError::SelectedPatchTargetMismatch(patch_id(
            "sha256-vue-patch"
        )))
    );
}

#[test]
fn patch_catalog_links_definitions_to_selections() {
    let definition = patch_definition(
        "sha256-react-patch",
        "patches/react.patch",
        resolved_package("react", "19.0.0"),
        PatchEffects::source_only(),
    );
    let selection = patch_selection(
        PatchSelector::Global(PatchTarget::Package(package_name("react"))),
        patch_stack(vec![definition.id().clone()]),
    );

    let catalog = patch_catalog(vec![definition], vec![selection]);

    assert!(catalog.get(&patch_id("sha256-react-patch")).is_some());
    assert_eq!(catalog.definitions().len(), 1);
    assert_eq!(catalog.selections().len(), 1);
}

#[test]
fn patch_catalog_can_be_empty() {
    let catalog = PatchCatalog::empty();

    assert_eq!(catalog.definitions().len(), 0);
    assert!(catalog.selections().is_empty());
}

#[test]
fn patch_catalog_orders_definitions_by_id() {
    let later = patch_definition(
        "sha256-b",
        "patches/b.patch",
        resolved_package("react", "19.0.0"),
        PatchEffects::source_only(),
    );
    let earlier = patch_definition(
        "sha256-a",
        "patches/a.patch",
        resolved_package("react", "19.0.0"),
        PatchEffects::source_only(),
    );
    let catalog = patch_catalog(vec![later, earlier], Vec::new());
    let ids: Vec<&str> = catalog
        .definitions()
        .iter()
        .map(|d| d.id().content_hash().as_str())
        .collect();
    assert_eq!(ids, vec!["sha256-a", "sha256-b"]);
    assert!(catalog.get(&patch_id("sha256-c")).is_none());
    assert_eq!(
        catalog.get(&patch_id("sha256-b")).map(|d| d.path().as_str()),
        Some("patches/b.patch")
    );
}

#[test]
fn exact_source_targets_match_only_that_source() {
    let react_19 = package_source("react", "19.0.0");
    let react_18 = package_source("react", "18.3.1");
    let exact = PatchTarget::Source(react_19.clone());
    let by_name = PatchTarget::Package(package_name("react"));

    assert!(exact.matches_source(&react_19));
    assert!(!exact.matches_source(&react_18));
    assert!(by_name.matches_source(&react_18));
    assert!(!PatchTarget::Package(package_name("vue")).matches_source(&react_18));
}

#[test]
fn describes_patch_errors() {
    let id = patch_id("sha256-x");
    assert_eq!(
        PatchCatalogError::UnknownSelectedPatch(id.clone()).message(),
        "patch selection references unknown patch `sha256-x`"
    );
    assert_eq!(
        PatchCatalogError::SelectedPatchTargetMismatch(id.clone()).message(),
        "patch `sha256-x` targets a different package than its selection"
    );
    assert_eq!(
        PatchStackError::DuplicatePatch(id).message(),
        "patch stack contains duplicate patch `sha256-x`"
    );
    assert_eq!(
        PatchSelectionError::EmptyPatchStack.message(),
        "patch selection must contain at least one patch"
    );
    assert_eq!(
        PatchEffectsError::Empty.message(),
        "patch effects must describe at least one effect"
    );
}

fn patch_id(value: &str) -> PatchId {
    PatchId::new(content_hash(value))
}

fn patch_stack(patches: Vec<PatchId>) -> PatchStack {
    match PatchStack::new(patches) {
        Ok(stack) => stack,
        Err(error) => panic!("unexpected patch stack error: {error:?}"),
    }
}

fn content_hash(value: &str) -> PatchContentHash {
    match PatchContentHash::new(value) {
        Ok(hash) => hash,
        Err(error) => panic!("unexpected content hash error: {error:?}"),
    }
}

#[test]
fn patch_selection_can_target_a_specific_edge() {
    let selection = patch_selection(
        PatchSelector::Edge(EdgePatchSelector::new(
            PatchTarget::Package(package_name("design-system")),
            PatchTarget::Source(package_source("react", "19.0.0")),
        )),
        patch_stack(vec![patch_id("sha256-react-patch")]),
    );

    assert!(matches!(selection.selector(), PatchSelector::Edge(_)));
    assert_eq!(selection.stack().len(), 1);
}

fn patch_selection(selector: PatchSelector, stack: PatchStack) -> PatchSelection {
    match PatchSelection::new(selector, stack) {
        Ok(selection) => selection,
        Err(error) => panic!("unexpected patch selection error: {error:?}"),
    }
}

fn patch_definition(
    id: &str,
    path: &str,
    base: ResolvedPackageId,
    effects: PatchEffects,
) -> PatchDefinition {
    PatchDefinition::new(patch_id(id), patch_path(path), base, effects)
}

fn patch_path(value: &str) -> PatchPath {
    match PatchPath::new(value) {
        Ok(path) => path,
        Err(error) => panic!("unexpected patch path error: {error:?}"),
    }
}

fn patch_catalog(
    definitions: Vec<PatchDefinition>,
    selections: Vec<PatchSelection>,
) -> PatchCatalog {
    match PatchCatalog::new(definitions, selections) {
        Ok(catalog) => catalog,
        Err(error) => panic!("unexpected patch catalog error: {error:?}"),
    }
}

fn resolved_package(name: &str, version: &str) -> ResolvedPackageId {
    ResolvedPackageId::new(
        PackageRevisionId::unpatched(package_source(name, version)),
        package_content_hash(&format!("sha256-{name}-{version}")),
    )
}

fn package_source(name: &str, version: &str) -> PackageSourceId {
    match PackageSourceId::new(
        package_name(name),
        Some(package_version(version)),
        npm_source(name, version),
    ) {
        Ok(source) => source,
        Err(error) => panic!("unexpected package source id error: {error:?}"),
    }
}

fn package_name(value: &str) -> PackageName {
    match PackageName::new(value) {
        Ok(name) => name,
        Err(error) => panic!("unexpected package name error: {error:?}"),
    }
}

fn package_version(value: &str) -> PackageVersion {
    match PackageVersion::new(value) {
        Ok(version) => version,
        Err(error) => panic!("unexpected package version error: {error:?}"),
    }
}

fn npm_source(name: &str, version: &str) -> PackageSource {
    PackageSource::Npm(NpmSource {
        registry: source_url("https://registry.npmjs.org"),
        tarball: source_url(&format!(
            "https://registry.npmjs.org/{name}/-/{name}-{version}.tgz"
        )),
        integrity: integrity(&format!("sha512-{name}-{version}")),
    })
}

fn source_url(value: &str) -> SourceUrl {
    match SourceUrl::new(value) {
        Ok(url) => url,
        Err(error) => panic!("unexpected source url error: {error:?}"),
    }
}

fn integrity(value: &str) -> Integrity {
    match Integrity::new(value) {
        Ok(integrity) => integrity,
        Err(error) => panic!("unexpected integrity error: {error:?}"),
    }
}

fn package_content_hash(value: &str) -> PackageContentHash {
    match PackageContentHash::new(value) {
        Ok(hash) => hash,
        Err(error) => panic!("unexpected package content hash error: {error:?}"),
    }
}
