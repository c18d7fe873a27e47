//! Package identities: a source, a revision of it, and a resolved artifact.
use vstd::prelude::*;

use crate::name::PackageName;
use crate::patch::PatchStack;
use crate::same::SameAs;
use crate::source::{same_option, PackageContentHash, PackageSource, SourceModel};
use crate::version::PackageVersion;

verus! {

#[derive(Debug, Clone, Copy, PartialEq, Eq)]
pub enum PackageSourceIdError {
    MissingVersionForRegistryPackage,
}

impl PackageSourceIdError {
    pub open spec fn describe(self) -> Seq<char> {
        "registry packages must have a resolved version"@
    }

    /// A human-readable description of the error.
    pub fn message(&self) -> (s: String)
        ensures
            s@ == self.describe(),
    {
        "registry packages must have a resolved version".to_owned()
    }
}

/// The model of a package source identity.
pub struct SourceIdModel {
    pub name: Seq<char>,
    pub version: Option<Seq<char>>,
    pub source: SourceModel,
}

/// A package by name, resolved version and source.
#[derive(Debug, PartialEq, Eq, Hash)]
pub struct PackageSourceId {
    name: PackageName,
    version: Option<PackageVersion>,
    source: PackageSource,
}

impl View for PackageSourceId {
    type V = SourceIdModel;

    closed spec fn view(&self) -> SourceIdModel {
        SourceIdModel {
            name: self.name@,
            version: self.version.deep_view(),
            source: self.source@,
        }
    }
}

impl DeepView for PackageSourceId {
    type V = SourceIdModel;

    open spec fn deep_view(&self) -> SourceIdModel {
        self@
    }
}

impl PackageSourceId {
    #[verifier::type_invariant]
    closed spec fn registry_has_version(self) -> bool {
        self.source is Npm ==> self.version is Some
    }

    pub fn new(name: PackageName, version: Option<PackageVersion>, source: PackageSource) -> (r:
        Result<Self, PackageSourceIdError>)
        ensures
            match r {
                Ok(id) => !(source is Npm && version is None) && id@ == SourceIdModel {
                    name: name@,
                    version: version.deep_view(),
                    source: source@,
                },
                Err(e) => source is Npm && version is None && e
                    == PackageSourceIdError::MissingVersionForRegistryPackage,
            },
    {
        if matches!(source, PackageSource::Npm(_)) && version.is_none() {
            return Err(PackageSourceIdError::MissingVersionForRegistryPackage);
        }
        Ok(PackageSourceId { name, version, source })
    }

    pub fn name(&self) -> (r: &PackageName)
        ensures
            r@ == self@.name,
    {
        &self.name
    }

    /// The resolved version; registry packages always have one.
    pub fn version(&self) -> (r: Option<&PackageVersion>)
        ensures
            r.deep_view() == self@.version,
            self@.source is Npm ==> r is Some,
    {
        proof {
            use_type_invariant(self);
        }
        self.version.as_ref()
    }

    pub fn source(&self) -> (r: &PackageSource)
        ensures
            r@ == self@.source,
    {
        &self.source
    }
}

impl Clone for PackageSourceId {
    fn clone(&self) -> (r: Self)
        ensures
            r@ == self@,
    {
        proof {
            use_type_invariant(self);
        }
        let version = match &self.version {
            Some(v) => Some(v.clone()),
            None => None,
        };
        PackageSourceId { name: self.name.clone(), version, source: self.source.clone() }
    }
}

impl SameAs for PackageSourceId {
    fn same_as(&self, other: &Self) -> (b: bool) {
        self.name.same_as(&other.name) && same_option(&self.version, &other.version)
            && self.source.same_as(&other.source)
    }
}

/// The model of a package revision: its source identity and the ids of its patches, in order.
pub struct RevisionModel {
    pub source: SourceIdModel,
    pub patches: Seq<Seq<char>>,
}

/// A package source with the ordered patches applied to it.
#[derive(Debug, PartialEq, Eq, Hash)]
pub struct PackageRevisionId {
    source: PackageSourceId,
    patch_stack: PatchStack,
}

impl View for PackageRevisionId {
    type V = RevisionModel;

    closed spec fn view(&self) -> RevisionModel {
        RevisionModel { source: self.source@, patches: self.patch_stack@ }
    }
}

impl DeepView for PackageRevisionId {
    type V = RevisionModel;

    open spec fn deep_view(&self) -> RevisionModel {
        self@
    }
}

impl PackageRevisionId {
    pub fn new(source: PackageSourceId, patch_stack: PatchStack) -> (r: Self)
        ensures
            r@ == (RevisionModel { source: source@, patches: patch_stack@ }),
    {
        PackageRevisionId { source, patch_stack }
    }

    /// The source without any patch.
    pub fn unpatched(source: PackageSourceId) -> (r: Self)
        ensures
            r@ == (RevisionModel { source: source@, patches: Seq::empty() }),
    {
        let stack = PatchStack::empty();
        Self::new(source, stack)
    }

    pub fn source(&self) -> (r: &PackageSourceId)
        ensures
            r@ == self@.source,
    {
        &self.source
    }

    pub fn patch_stack(&self) -> (r: &PatchStack)
        ensures
            r@ == self@.patches,
    {
        &self.patch_stack
    }
}

impl Clone for PackageRevisionId {
    fn clone(&self) -> (r: Self)
        ensures
            r@ == self@,
    {
        PackageRevisionId { source: self.source.clone(), patch_stack: self.patch_stack.clone() }
    }
}

impl SameAs for PackageRevisionId {
    fn same_as(&self, other: &Self) -> (b: bool) {
        self.source.same_as(&other.source) && self.patch_stack.same_as(&other.patch_stack)
    }
}

/// The model of a resolved package: its revision and the recorded artifact hash.
pub struct ResolvedModel {
    pub revision: RevisionModel,
    pub artifact_hash: Seq<char>,
}

/// A package revision paired with the artifact hash zyn recorded for it.
#[derive(Debug, PartialEq, Eq, Hash)]
pub struct ResolvedPackageId {
    revision: PackageRevisionId,
    artifact_hash: PackageContentHash,
}

impl View for ResolvedPackageId {
    type V = ResolvedModel;

    closed spec fn view(&self) -> ResolvedModel {
        ResolvedModel { revision: self.revision@, artifact_hash: self.artifact_hash@ }
    }
}

impl DeepView for ResolvedPackageId {
    type V = ResolvedModel;

    open spec fn deep_view(&self) -> ResolvedModel {
        self@
    }
}

impl ResolvedPackageId {
    pub fn new(revision: PackageRevisionId, artifact_hash: PackageContentHash) -> (r: Self)
        ensures
            r@ == (ResolvedModel { revision: revision@, artifact_hash: artifact_hash@ }),
    {
        ResolvedPackageId { revision, artifact_hash }
    }

    pub fn revision(&self) -> (r: &PackageRevisionId)
        ensures
            r@ == self@.revision,
    {
        &self.revision
    }

    pub fn artifact_hash(&self) -> (r: &PackageContentHash)
        ensures
            r@ == self@.artifact_hash,
    {
        &self.artifact_hash
    }
}

impl Clone for ResolvedPackageId {
    fn clone(&self) -> (r: Self)
        ensures
            r@ == self@,
    {
        ResolvedPackageId {
            revision: self.revision.clone(),
            artifact_hash: self.artifact_hash.clone(),
        }
    }
}

impl SameAs for ResolvedPackageId {
    fn same_as(&self, other: &Self) -> (b: bool) {
        self.revision.same_as(&other.revision) && self.artifact_hash.same_as(&other.artifact_hash)
    }
}

/// The patch stack is part of a revision's identity: revisions of one source with
/// different patch stacks are different revisions.
pub proof fn lemma_patches_in_revision_identity(
    source: SourceIdModel,
    left: Seq<Seq<char>>,
    right: Seq<Seq<char>>,
)
    requires
        left != right,
    ensures
        (RevisionModel { source, patches: left }) != (RevisionModel { source, patches: right }),
{
}

} // verus!
