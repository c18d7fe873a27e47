//! The core model of the zyn package manager: package names and versions,
//! dependency requests, resolved sources, patches, the dependency graph and
//! the lockfile, and the reading of `package.json` manifests into that model.
use vstd::prelude::*;

pub mod text;
pub mod same;
pub mod sorted;
pub mod name;
pub mod version;
pub mod dependency;
pub mod source;
pub mod package;
pub mod patch;
pub mod patch_path;
pub mod catalog;
pub mod graph;
pub mod lockfile;
pub mod manifest_error;
pub mod dep_spec;
pub mod manifest;

pub use catalog::{PatchCatalog, PatchCatalogError};
pub use dep_spec::parse_dependency_spec;
pub use dependency::{
    DependencyKind, DependencyRequest, DependencySpec, DistTag, GitReference, GitSpec,
    NonEmptyStringError, PathSpec, Subdirectory, TarballSpec, VersionRange, WorkspaceSpec,
};
pub use graph::{
    DependencyEdge, PackageNodeId, PeerContext, PeerContextError, PeerResolution, PlatformContext,
};
pub use lockfile::{Lockfile, LockfileError, LOCKFILE_REVISION, LOCKFILE_VERSION};
pub use manifest::{DependencySection, PackageJsonWire, PackageManifest};
pub use manifest_error::ManifestError;
pub use name::{PackageName, PackageNameError};
pub use package::{PackageRevisionId, PackageSourceId, PackageSourceIdError, ResolvedPackageId};
pub use patch::{
    EdgePatchSelector, ManifestPatchEffect, PatchDefinition, PatchEffects, PatchEffectsError,
    PatchId, PatchSelection, PatchSelectionError, PatchSelector, PatchStack, PatchStackError,
    PatchTarget, SourcePatchEffect,
};
pub use patch_path::{PatchPath, PatchPathError, PATCHES_DIR};
pub use source::{
    GitCommit, GitSource, Integrity, NpmSource, PackageContentHash, PackageSource,
    PatchContentHash, PathSource, SourceTextError, SourceUrl, TarballSource, VendoredSource,
    WorkspaceSource,
};
pub use version::{PackageVersion, PackageVersionError};

verus! {

/// The package manager's name.
pub const NAME: &'static str = "zyn";

/// This library's version.
pub const VERSION: &'static str = "0.1.0";

} // verus!
