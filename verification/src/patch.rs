//! Patches: their identities, ordered stacks of them, their files and effects,
//! and the catalog that selects where they apply.
use vstd::prelude::*;

use crate::name::PackageName;
use crate::package::{PackageSourceId, ResolvedModel, ResolvedPackageId, SourceIdModel};
use crate::patch_path::PatchPath;
use crate::same::{find_repeat, is_first_repeat, SameAs};
use crate::sorted::Keyed;
use crate::source::PatchContentHash;
use crate::text::{chars_of, concat3};

verus! {

/// Stable identity for a zyn-tracked patch file: its content hash.
#[derive(Debug, PartialEq, Eq, PartialOrd, Ord, Hash)]
pub struct PatchId {
    content_hash: PatchContentHash,
}

impl View for PatchId {
    type V = Seq<char>;

    closed spec fn view(&self) -> Seq<char> {
        self.content_hash@
    }
}

impl DeepView for PatchId {
    type V = Seq<char>;

    open spec fn deep_view(&self) -> Seq<char> {
        self@
    }
}

impl PatchId {
    pub fn new(content_hash: PatchContentHash) -> (r: Self)
        ensures
            r@ == content_hash@,
    {
        PatchId { content_hash }
    }

    pub fn content_hash(&self) -> (r: &PatchContentHash)
        ensures
            r@ == self@,
    {
        &self.content_hash
    }
}

impl SameAs for PatchId {
    fn same_as(&self, other: &Self) -> (b: bool) {
        self.content_hash.same_as(&other.content_hash)
    }
}

impl Clone for PatchId {
    fn clone(&self) -> (r: Self)
        ensures
            r@ == self@,
    {
        PatchId { content_hash: self.content_hash.clone() }
    }
}

#[derive(Debug, Clone, PartialEq, Eq)]
pub enum PatchStackError {
    DuplicatePatch(PatchId),
}

/// Ordered patches that produce a package revision; no patch occurs twice.
#[derive(Debug, PartialEq, Eq, Hash)]
pub struct PatchStack {
    patches: Vec<PatchId>,
}

impl View for PatchStack {
    type V = Seq<Seq<char>>;

    closed spec fn view(&self) -> Seq<Seq<char>> {
        self.patches.deep_view()
    }
}

impl DeepView for PatchStack {
    type V = Seq<Seq<char>>;

    open spec fn deep_view(&self) -> Seq<Seq<char>> {
        self@
    }
}

impl PatchStack {
    #[verifier::type_invariant]
    closed spec fn distinct(self) -> bool {
        self.patches.deep_view().no_duplicates()
    }

    pub fn new(patches: Vec<PatchId>) -> (r: Result<Self, PatchStackError>)
        ensures
            match r {
                Ok(stack) => patches.deep_view().no_duplicates() && stack@ == patches.deep_view(),
                Err(PatchStackError::DuplicatePatch(p)) => exists|j: int|
                    is_first_repeat(patches.deep_view(), j) && p@ == patches.deep_view()[j],
            },
    {
        match find_repeat(&patches) {
            Some(j) => Err(PatchStackError::DuplicatePatch(patches[j].clone())),
            None => Ok(PatchStack { patches }),
        }
    }

    pub fn empty() -> (r: Self)
        ensures
            r@ == Seq::<Seq<char>>::empty(),
    {
        let patches: Vec<PatchId> = Vec::new();
        assert(patches.deep_view() =~= Seq::<Seq<char>>::empty());
        PatchStack { patches }
    }

    /// The patches, in order; none occurs twice.
    pub fn patches(&self) -> (r: &[PatchId])
        ensures
            r@.len() == self@.len(),
            forall|i: int| 0 <= i < r@.len() ==> r@[i]@ == self@[i],
            self@.no_duplicates(),
    {
        proof {
            use_type_invariant(self);
        }
        self.patches.as_slice()
    }

    pub fn is_empty(&self) -> (b: bool)
        ensures
            b == (self@.len() == 0),
    {
        self.patches.len() == 0
    }

    pub fn len(&self) -> (n: usize)
        ensures
            n == self@.len(),
    {
        self.patches.len()
    }
}

impl Clone for PatchStack {
    fn clone(&self) -> (r: Self)
        ensures
            r@ == self@,
    {
        proof {
            use_type_invariant(self);
        }
        let mut patches: Vec<PatchId> = Vec::new();
        let mut i: usize = 0;
        while i < self.patches.len()
            invariant
                i <= self.patches@.len(),
                patches@.len() == i,
                forall|k: int| 0 <= k < i ==> patches@[k]@ == self.patches@[k]@,
            decreases self.patches@.len() - i,
        {
            patches.push(self.patches[i].clone());
            i = i + 1;
        }
        assert(patches.deep_view() =~= self.patches.deep_view());
        PatchStack { patches }
    }
}

impl SameAs for PatchStack {
    fn same_as(&self, other: &Self) -> (b: bool) {
        if self.patches.len() != other.patches.len() {
            assert(self@.len() != other@.len());
            return false;
        }
        let mut i: usize = 0;
        while i < self.patches.len()
            invariant
                self.patches@.len() == other.patches@.len(),
                i <= self.patches@.len(),
                forall|k: int| 0 <= k < i ==> self@[k] == other@[k],
            decreases self.patches@.len() - i,
        {
            if !self.patches[i].same_as(&other.patches[i]) {
                assert(self@[i as int] != other@[i as int]);
                return false;
            }
            i = i + 1;
        }
        assert(self@ =~= other@);
        true
    }
}


/// The order of a stack is part of its identity: the same two patches stacked in the two
/// orders give different stacks.
pub proof fn lemma_stack_order_matters(first: Seq<char>, second: Seq<char>)
    requires
        first != second,
    ensures
        seq![first, second] != seq![second, first],
{
    assert(seq![first, second][0] != seq![second, first][0]);
}

impl PatchStackError {
    pub open spec fn describe(self) -> Seq<char> {
        match self {
            PatchStackError::DuplicatePatch(p) => "patch stack contains duplicate patch `"@ + p@
                + "`"@,
        }
    }

    /// A human-readable description of the error.
    pub fn message(&self) -> (s: String)
        ensures
            s@ == self.describe(),
    {
        match self {
            PatchStackError::DuplicatePatch(p) => concat3(
                "patch stack contains duplicate patch `",
                p.content_hash().as_str(),
                "`",
            ),
        }
    }
}

#[derive(Debug, Clone, Copy, PartialEq, Eq, Hash)]
pub enum ManifestPatchEffect {
    /// The patch does not change package manifest data.
    Unchanged,
    /// The patch changes manifest data that does not affect dependency graph expansion.
    MetadataOnly,
    /// The patch may change dependencies, peers, optional dependencies, or platform constraints.
    Resolution,
}

impl Default for ManifestPatchEffect {
    fn default() -> (r: Self)
        ensures
            r == ManifestPatchEffect::Unchanged,
    {
        ManifestPatchEffect::Unchanged
    }
}

#[derive(Debug, Clone, Copy, PartialEq, Eq, Hash)]
pub enum SourcePatchEffect {
    /// The patch does not change package source files.
    Unchanged,
    Changes,
}

impl Default for SourcePatchEffect {
    fn default() -> (r: Self)
        ensures
            r == SourcePatchEffect::Unchanged,
    {
        SourcePatchEffect::Unchanged
    }
}

#[derive(Debug, Clone, Copy, PartialEq, Eq)]
pub enum PatchEffectsError {
    Empty,
}

impl PatchEffectsError {
    pub open spec fn describe(self) -> Seq<char> {
        "patch effects must describe at least one effect"@
    }

    /// A human-readable description of the error.
    pub fn message(&self) -> (s: String)
        ensures
            s@ == self.describe(),
    {
        "patch effects must describe at least one effect".to_owned()
    }
}

/// What a patch changes: package manifest data, source files, or both; never nothing.
#[derive(Debug, Clone, Copy, PartialEq, Eq, Hash)]
pub struct PatchEffects {
    manifest: ManifestPatchEffect,
    source: SourcePatchEffect,
}

/// Effects that change nothing at all.
pub open spec fn no_effect(manifest: ManifestPatchEffect, source: SourcePatchEffect) -> bool {
    manifest == ManifestPatchEffect::Unchanged && source == SourcePatchEffect::Unchanged
}

impl View for PatchEffects {
    type V = (ManifestPatchEffect, SourcePatchEffect);

    closed spec fn view(&self) -> (ManifestPatchEffect, SourcePatchEffect) {
        (self.manifest, self.source)
    }
}

impl DeepView for PatchEffects {
    type V = (ManifestPatchEffect, SourcePatchEffect);

    open spec fn deep_view(&self) -> (ManifestPatchEffect, SourcePatchEffect) {
        self@
    }
}

impl PatchEffects {
    #[verifier::type_invariant]
    closed spec fn some_effect(self) -> bool {
        !no_effect(self.manifest, self.source)
    }

    pub fn new(manifest: ManifestPatchEffect, source: SourcePatchEffect) -> (r: Result<
        Self,
        PatchEffectsError,
    >)
        ensures
            match r {
                Ok(effects) => !no_effect(manifest, source) && effects@ == (manifest, source),
                Err(e) => no_effect(manifest, source) && e == PatchEffectsError::Empty,
            },
    {
        let nothing = matches!(manifest, ManifestPatchEffect::Unchanged) && matches!(source, SourcePatchEffect::Unchanged);
        if nothing {
            Err(PatchEffectsError::Empty)
        } else {
            Ok(PatchEffects { manifest, source })
        }
    }

    /// Source changes only.
    pub fn source_only() -> (r: Self)
        ensures
            r@ == (ManifestPatchEffect::Unchanged, SourcePatchEffect::Changes),
    {
        PatchEffects { manifest: ManifestPatchEffect::Unchanged, source: SourcePatchEffect::Changes }
    }

    /// Manifest changes that may affect resolution, and no source change.
    pub fn manifest_resolution() -> (r: Self)
        ensures
            r@ == (ManifestPatchEffect::Resolution, SourcePatchEffect::Unchanged),
    {
        PatchEffects { manifest: ManifestPatchEffect::Resolution, source: SourcePatchEffect::Unchanged }
    }

    pub fn manifest(&self) -> (r: ManifestPatchEffect)
        ensures
            r == self@.0,
            !no_effect(self@.0, self@.1),
    {
        proof {
            use_type_invariant(self);
        }
        self.manifest
    }

    pub fn source(&self) -> (r: SourcePatchEffect)
        ensures
            r == self@.1,
            !no_effect(self@.0, self@.1),
    {
        proof {
            use_type_invariant(self);
        }
        self.source
    }
}

/// The model of a patch definition.
pub struct DefinitionModel {
    pub id: Seq<char>,
    pub path: Seq<char>,
    pub base: ResolvedModel,
    pub effects: (ManifestPatchEffect, SourcePatchEffect),
}

/// A resolved patch definition and the package revision it was authored against.
///
/// Constructing this value records the caller's claim that `id` is the content hash of `path`.
#[derive(Debug, Clone, PartialEq, Eq, Hash)]
pub struct PatchDefinition {
    id: PatchId,
    path: PatchPath,
    base: ResolvedPackageId,
    effects: PatchEffects,
}

impl View for PatchDefinition {
    type V = DefinitionModel;

    closed spec fn view(&self) -> DefinitionModel {
        DefinitionModel {
            id: self.id@,
            path: self.path@,
            base: self.base@,
            effects: self.effects@,
        }
    }
}

impl DeepView for PatchDefinition {
    type V = DefinitionModel;

    open spec fn deep_view(&self) -> DefinitionModel {
        self@
    }
}

impl PatchDefinition {
    pub fn new(id: PatchId, path: PatchPath, base: ResolvedPackageId, effects: PatchEffects) -> (r:
        Self)
        ensures
            r@ == (DefinitionModel { id: id@, path: path@, base: base@, effects: effects@ }),
    {
        PatchDefinition { id, path, base, effects }
    }

    pub fn id(&self) -> (r: &PatchId)
        ensures
            r@ == self@.id,
    {
        &self.id
    }

    pub fn path(&self) -> (r: &PatchPath)
        ensures
            r@ == self@.path,
    {
        &self.path
    }

    pub fn base(&self) -> (r: &ResolvedPackageId)
        ensures
            r@ == self@.base,
    {
        &self.base
    }

    pub fn effects(&self) -> (r: PatchEffects)
        ensures
            r@ == self@.effects,
    {
        self.effects
    }
}

impl Keyed for PatchDefinition {
    open spec fn key_of(m: DefinitionModel) -> Seq<char> {
        m.id
    }

    fn key_chars(&self) -> (k: Vec<char>) {
        chars_of(self.id.content_hash().as_str())
    }
}

/// The model of a patch target.
pub enum TargetModel {
    Package(Seq<char>),
    Source(SourceIdModel),
}

#[derive(Debug, PartialEq, Eq, Hash)]
pub enum PatchTarget {
    /// Match every resolved source with this package name.
    Package(PackageName),
    /// Match an exact package source by its identity.
    Source(PackageSourceId),
}

impl View for PatchTarget {
    type V = TargetModel;

    open spec fn view(&self) -> TargetModel {
        match self {
            PatchTarget::Package(name) => TargetModel::Package(name@),
            PatchTarget::Source(source) => TargetModel::Source(source@),
        }
    }
}

/// A target matches a source by name, or by the whole source identity.
pub open spec fn target_matches(target: TargetModel, source: SourceIdModel) -> bool {
    match target {
        TargetModel::Package(name) => source.name == name,
        TargetModel::Source(s) => s == source,
    }
}

impl PatchTarget {
    /// A package target matches every source of that package name; a source target
    /// matches only the very same source identity (name, version and source).
    pub fn matches_source(&self, source: &PackageSourceId) -> (b: bool)
        ensures
            b == target_matches(self@, source@),
            match self@ {
                TargetModel::Package(name) => b == (source@.name == name),
                TargetModel::Source(s) => b == (s == source@),
            },
    {
        match self {
            PatchTarget::Package(name) => source.name().same_as(name),
            PatchTarget::Source(target_source) => target_source.same_as(source),
        }
    }
}

impl Clone for PatchTarget {
    fn clone(&self) -> (r: Self)
        ensures
            r@ == self@,
    {
        match self {
            PatchTarget::Package(name) => PatchTarget::Package(name.clone()),
            PatchTarget::Source(source) => PatchTarget::Source(source.clone()),
        }
    }
}

/// Apply a patch stack to a target only when it is a direct dependency of the parent.
#[derive(Debug, PartialEq, Eq, Hash)]
pub struct EdgePatchSelector {
    parent: PatchTarget,
    target: PatchTarget,
}

impl EdgePatchSelector {
    pub fn new(parent: PatchTarget, target: PatchTarget) -> (r: Self)
        ensures
            r.parent_model() == parent@,
            r.target_model() == target@,
    {
        EdgePatchSelector { parent, target }
    }

    pub closed spec fn parent_model(self) -> TargetModel {
        self.parent@
    }

    pub closed spec fn target_model(self) -> TargetModel {
        self.target@
    }

    pub fn parent(&self) -> (r: &PatchTarget)
        ensures
            r@ == self.parent_model(),
    {
        &self.parent
    }

    pub fn target(&self) -> (r: &PatchTarget)
        ensures
            r@ == self.target_model(),
    {
        &self.target
    }
}

impl Clone for EdgePatchSelector {
    fn clone(&self) -> (r: Self)
        ensures
            r.parent_model() == self.parent_model(),
            r.target_model() == self.target_model(),
    {
        EdgePatchSelector { parent: self.parent.clone(), target: self.target.clone() }
    }
}

/// The model of a patch selector.
pub enum SelectorModel {
    Global(TargetModel),
    Edge { parent: TargetModel, target: TargetModel },
}

/// The target that a selector applies its patches to.
pub open spec fn selector_target(s: SelectorModel) -> TargetModel {
    match s {
        SelectorModel::Global(t) => t,
        SelectorModel::Edge { target, .. } => target,
    }
}

#[derive(Debug, PartialEq, Eq, Hash)]
pub enum PatchSelector {
    /// Apply a patch stack to every matching package target.
    ///
    /// Patch definitions still carry exact bases. Resolution must only apply a selected patch when
    /// the candidate package matches the patch definition's base.
    Global(PatchTarget),
    Edge(EdgePatchSelector),
}

impl View for PatchSelector {
    type V = SelectorModel;

    open spec fn view(&self) -> SelectorModel {
        match self {
            PatchSelector::Global(t) => SelectorModel::Global(t@),
            PatchSelector::Edge(e) => SelectorModel::Edge {
                parent: e.parent_model(),
                target: e.target_model(),
            },
        }
    }
}

/// An edge selector applies its patches to the edge's target, whatever its parent;
/// a global selector to its own target.
pub proof fn lemma_selector_target_is_target(parent: TargetModel, target: TargetModel)
    ensures
        selector_target(SelectorModel::Edge { parent, target }) == target,
        selector_target(SelectorModel::Global(target)) == target,
{
}

/// A source target matches exactly the identical source identity: a source that differs
/// in name, version or source does not match; a package target matches by name alone.
pub proof fn lemma_target_matching(name: Seq<char>, s: SourceIdModel, source: SourceIdModel)
    ensures
        target_matches(TargetModel::Source(s), source) <==> s == source,
        s.source != source.source ==> !target_matches(TargetModel::Source(s), source),
        target_matches(TargetModel::Package(name), source) <==> source.name == name,
{
}

impl PatchSelector {
    /// The target that the selector applies its patches to: a global selector's target,
    /// or an edge's target (never the edge's parent).
    pub fn target(&self) -> (r: &PatchTarget)
        ensures
            r@ == selector_target(self@),
            match self@ {
                SelectorModel::Global(t) => r@ == t,
                SelectorModel::Edge { parent, target } => r@ == target,
            },
    {
        match self {
            PatchSelector::Global(target) => target,
            PatchSelector::Edge(edge) => edge.target(),
        }
    }
}

impl Clone for PatchSelector {
    fn clone(&self) -> (r: Self)
        ensures
            r@ == self@,
    {
        match self {
            PatchSelector::Global(target) => PatchSelector::Global(target.clone()),
            PatchSelector::Edge(edge) => PatchSelector::Edge(edge.clone()),
        }
    }
}

#[derive(Debug, Clone, Copy, PartialEq, Eq)]
pub enum PatchSelectionError {
    EmptyPatchStack,
}

impl PatchSelectionError {
    pub open spec fn describe(self) -> Seq<char> {
        "patch selection must contain at least one patch"@
    }

    /// A human-readable description of the error.
    pub fn message(&self) -> (s: String)
        ensures
            s@ == self.describe(),
    {
        "patch selection must contain at least one patch".to_owned()
    }
}

/// The model of a patch selection.
pub struct SelectionModel {
    pub selector: SelectorModel,
    pub stack: Seq<Seq<char>>,
}

/// Where zyn should apply an ordered, non-empty patch stack.
#[derive(Debug, PartialEq, Eq, Hash)]
pub struct PatchSelection {
    selector: PatchSelector,
    stack: PatchStack,
}

impl View for PatchSelection {
    type V = SelectionModel;

    closed spec fn view(&self) -> SelectionModel {
        SelectionModel { selector: self.selector@, stack: self.stack@ }
    }
}

impl DeepView for PatchSelection {
    type V = SelectionModel;

    open spec fn deep_view(&self) -> SelectionModel {
        self@
    }
}

impl PatchSelection {
    #[verifier::type_invariant]
    closed spec fn non_empty(self) -> bool {
        self.stack@.len() > 0
    }

    pub fn new(selector: PatchSelector, stack: PatchStack) -> (r: Result<Self, PatchSelectionError>)
        ensures
            match r {
                Ok(selection) => stack@.len() > 0 && selection@ == (SelectionModel {
                    selector: selector@,
                    stack: stack@,
                }),
                Err(e) => stack@.len() == 0 && e == PatchSelectionError::EmptyPatchStack,
            },
    {
        if stack.is_empty() {
            return Err(PatchSelectionError::EmptyPatchStack);
        }
        Ok(PatchSelection { selector, stack })
    }

    pub fn selector(&self) -> (r: &PatchSelector)
        ensures
            r@ == self@.selector,
    {
        &self.selector
    }

    /// The selected patches; there is at least one.
    pub fn stack(&self) -> (r: &PatchStack)
        ensures
            r@ == self@.stack,
            r@.len() > 0,
    {
        proof {
            use_type_invariant(self);
        }
        &self.stack
    }
}

impl Clone for PatchSelection {
    fn clone(&self) -> (r: Self)
        ensures
            r@ == self@,
    {
        proof {
            use_type_invariant(self);
        }
        PatchSelection { selector: self.selector.clone(), stack: self.stack.clone() }
    }
}

} // verus!
