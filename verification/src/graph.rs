//! Nodes and edges of the resolved dependency graph.
use vstd::prelude::*;

use crate::dependency::{DependencyKind, DependencySpec, DependencySpecModel};
use crate::name::PackageName;
use crate::package::{ResolvedModel, ResolvedPackageId};
use crate::same::{is_first_repeat, same_text, SameAs};
use crate::sorted::{collect_sorted, keys_of, lemma_sorted_unique, sorted_keys, Keyed};
use crate::text::{chars_of, concat3};

verus! {

/// The model of a peer resolution: the peer's name and the package that provides it.
pub struct PeerModel {
    pub name: Seq<char>,
    pub package: ResolvedModel,
}

/// A peer dependency name and the package chosen for it.
#[derive(Debug, PartialEq, Eq, Hash)]
pub struct PeerResolution {
    name: PackageName,
    package: ResolvedPackageId,
}

impl View for PeerResolution {
    type V = PeerModel;

    closed spec fn view(&self) -> PeerModel {
        PeerModel { name: self.name@, package: self.package@ }
    }
}

impl DeepView for PeerResolution {
    type V = PeerModel;

    open spec fn deep_view(&self) -> PeerModel {
        self@
    }
}

impl PeerResolution {
    pub fn new(name: PackageName, package: ResolvedPackageId) -> (r: Self)
        ensures
            r@ == (PeerModel { name: name@, package: package@ }),
    {
        PeerResolution { name, package }
    }

    pub fn name(&self) -> (r: &PackageName)
        ensures
            r@ == self@.name,
    {
        &self.name
    }

    pub fn package(&self) -> (r: &ResolvedPackageId)
        ensures
            r@ == self@.package,
    {
        &self.package
    }
}

impl Clone for PeerResolution {
    fn clone(&self) -> (r: Self)
        ensures
            r@ == self@,
    {
        PeerResolution { name: self.name.clone(), package: self.package.clone() }
    }
}

impl Keyed for PeerResolution {
    open spec fn key_of(m: PeerModel) -> Seq<char> {
        m.name
    }

    fn key_chars(&self) -> (k: Vec<char>) {
        chars_of(self.name.as_str())
    }
}

impl SameAs for PeerResolution {
    fn same_as(&self, other: &Self) -> (b: bool) {
        self.name.same_as(&other.name) && self.package.same_as(&other.package)
    }
}

/// The peer names of a sequence of peer resolutions.
pub open spec fn peer_names(s: Seq<PeerModel>) -> Seq<Seq<char>> {
    keys_of::<PeerResolution>(s)
}

#[derive(Debug, Clone, PartialEq, Eq)]
pub enum PeerContextError {
    DuplicatePeer(PackageName),
}

impl PeerContextError {
    pub open spec fn describe(self) -> Seq<char> {
        match self {
            PeerContextError::DuplicatePeer(name) => "peer context contains duplicate peer `"@
                + name@ + "`"@,
        }
    }

    /// A human-readable description of the error.
    pub fn message(&self) -> (s: String)
        ensures
            s@ == self.describe(),
    {
        match self {
            PeerContextError::DuplicatePeer(name) => concat3(
                "peer context contains duplicate peer `",
                name.as_str(),
                "`",
            ),
        }
    }
}

/// The peers a package instance was resolved with, one package per peer name,
/// held in increasing order of name.
#[derive(Debug, PartialEq, Eq, Hash)]
pub struct PeerContext {
    peers: Vec<PeerResolution>,
}

impl View for PeerContext {
    type V = Seq<PeerModel>;

    closed spec fn view(&self) -> Seq<PeerModel> {
        self.peers.deep_view()
    }
}

impl DeepView for PeerContext {
    type V = Seq<PeerModel>;

    open spec fn deep_view(&self) -> Seq<PeerModel> {
        self@
    }
}

impl PeerContext {
    #[verifier::type_invariant]
    closed spec fn ordered(self) -> bool {
        sorted_keys::<PeerResolution>(self.peers.deep_view())
    }

    /// A context holding the given peers; two peers may not share a name.
    pub fn new(peers: Vec<PeerResolution>) -> (r: Result<Self, PeerContextError>)
        ensures
            match r {
                Ok(ctx) => {
                    &&& peer_names(peers.deep_view()).no_duplicates()
                    &&& ctx@.to_set() == peers.deep_view().to_set()
                    &&& ctx@.len() == peers.deep_view().len()
                    &&& sorted_keys::<PeerResolution>(ctx@)
                },
                Err(PeerContextError::DuplicatePeer(name)) => exists|j: int|
                    is_first_repeat(peer_names(peers.deep_view()), j) && name@ == peer_names(
                        peers.deep_view(),
                    )[j],
            },
    {
        let ghost input = peers.deep_view();
        match collect_sorted(peers) {
            Ok(resolved) => Ok(PeerContext { peers: resolved }),
            Err(duplicate) => {
                proof {
                    let j = choose|j: int|
                        is_first_repeat(keys_of::<PeerResolution>(input), j)
                            && duplicate.deep_view() == input[j];
                    assert(peer_names(input)[j] == input[j].name);
                }
                Err(PeerContextError::DuplicatePeer(duplicate.name))
            },
        }
    }

    pub fn empty() -> (r: Self)
        ensures
            r@ == Seq::<PeerModel>::empty(),
    {
        let peers: Vec<PeerResolution> = Vec::new();
        assert(peers.deep_view() =~= Seq::<PeerModel>::empty());
        PeerContext { peers }
    }

    /// The peers in increasing order of name.
    pub fn peers(&self) -> (r: &[PeerResolution])
        ensures
            r@.len() == self@.len(),
            forall|i: int| 0 <= i < r@.len() ==> r@[i]@ == self@[i],
            sorted_keys::<PeerResolution>(self@),
    {
        proof {
            use_type_invariant(self);
        }
        self.peers.as_slice()
    }
}

impl Default for PeerContext {
    fn default() -> (r: Self)
        ensures
            r@ == Seq::<PeerModel>::empty(),
    {
        PeerContext::empty()
    }
}

impl Clone for PeerContext {
    fn clone(&self) -> (r: Self)
        ensures
            r@ == self@,
    {
        proof {
            use_type_invariant(self);
        }
        let mut peers: Vec<PeerResolution> = Vec::new();
        let mut i: usize = 0;
        while i < self.peers.len()
            invariant
                i <= self.peers@.len(),
                peers@.len() == i,
                forall|k: int| 0 <= k < i ==> peers@[k]@ == self.peers@[k]@,
            decreases self.peers@.len() - i,
        {
            peers.push(self.peers[i].clone());
            i = i + 1;
        }
        assert(peers.deep_view() =~= self.peers.deep_view());
        PeerContext { peers }
    }
}

impl SameAs for PeerContext {
    fn same_as(&self, other: &Self) -> (b: bool) {
        if self.peers.len() != other.peers.len() {
            assert(self@.len() != other@.len());
            return false;
        }
        let mut i: usize = 0;
        while i < self.peers.len()
            invariant
                self.peers@.len() == other.peers@.len(),
                i <= self.peers@.len(),
                forall|k: int| 0 <= k < i ==> self@[k] == other@[k],
            decreases self.peers@.len() - i,
        {
            if !self.peers[i].same_as(&other.peers[i]) {
                assert(self@[i as int] != other@[i as int]);
                return false;
            }
            i = i + 1;
        }
        assert(self@ =~= other@);
        true
    }
}

/// A peer context is determined by its peers alone: contexts built from the same
/// peers, in whatever order, are equal.
pub proof fn lemma_peer_context_order_insensitive(
    left: Seq<PeerModel>,
    right: Seq<PeerModel>,
    left_ctx: Seq<PeerModel>,
    right_ctx: Seq<PeerModel>,
)
    requires
        left.to_set() == right.to_set(),
        left_ctx.to_set() == left.to_set(),
        right_ctx.to_set() == right.to_set(),
        sorted_keys::<PeerResolution>(left_ctx),
        sorted_keys::<PeerResolution>(right_ctx),
    ensures
        left_ctx == right_ctx,
{
    lemma_sorted_unique::<PeerResolution>(left_ctx, right_ctx);
}

/// The model of a platform context.
pub struct PlatformModel {
    pub os: Option<Seq<char>>,
    pub arch: Option<Seq<char>>,
}

#[derive(Debug, PartialEq, Eq, Hash)]
pub struct PlatformContext {
    pub os: Option<String>,
    pub arch: Option<String>,
}

impl View for PlatformContext {
    type V = PlatformModel;

    open spec fn view(&self) -> PlatformModel {
        PlatformModel { os: self.os.deep_view(), arch: self.arch.deep_view() }
    }
}

impl DeepView for PlatformContext {
    type V = PlatformModel;

    open spec fn deep_view(&self) -> PlatformModel {
        self@
    }
}

fn same_optional_text(a: &Option<String>, b: &Option<String>) -> (r: bool)
    ensures
        r == (a.deep_view() == b.deep_view()),
{
    match (a, b) {
        (Some(x), Some(y)) => same_text(x.as_str(), y.as_str()),
        (None, None) => true,
        _ => false,
    }
}

fn clone_optional_text(a: &Option<String>) -> (r: Option<String>)
    ensures
        r.deep_view() == a.deep_view(),
{
    match a {
        Some(x) => Some(x.clone()),
        None => None,
    }
}

impl SameAs for PlatformContext {
    fn same_as(&self, other: &Self) -> (b: bool) {
        same_optional_text(&self.os, &other.os) && same_optional_text(&self.arch, &other.arch)
    }
}

impl Clone for PlatformContext {
    fn clone(&self) -> (r: Self)
        ensures
            r@ == self@,
    {
        PlatformContext { os: clone_optional_text(&self.os), arch: clone_optional_text(&self.arch) }
    }
}

impl Default for PlatformContext {
    fn default() -> (r: Self)
        ensures
            r@ == (PlatformModel { os: None, arch: None }),
    {
        PlatformContext { os: None, arch: None }
    }
}

/// The model of a graph node: the resolved package and the contexts it was resolved in.
pub struct NodeModel {
    pub package: ResolvedModel,
    pub peers: Seq<PeerModel>,
    pub platform: PlatformModel,
}

/// A resolved package as it appears in the dependency graph.
///
/// Node identity includes peer and platform context because Node package instances can differ
/// even when they share the same resolved package.
#[derive(Debug, Clone, PartialEq, Eq, Hash)]
pub struct PackageNodeId {
    package: ResolvedPackageId,
    peer_context: PeerContext,
    platform_context: PlatformContext,
}

impl View for PackageNodeId {
    type V = NodeModel;

    closed spec fn view(&self) -> NodeModel {
        NodeModel {
            package: self.package@,
            peers: self.peer_context@,
            platform: self.platform_context@,
        }
    }
}

impl DeepView for PackageNodeId {
    type V = NodeModel;

    open spec fn deep_view(&self) -> NodeModel {
        self@
    }
}

impl PackageNodeId {
    /// A node with no peers and no platform constraint.
    pub fn new(package: ResolvedPackageId) -> (r: Self)
        ensures
            r@ == (NodeModel {
                package: package@,
                peers: Seq::empty(),
                platform: PlatformModel { os: None, arch: None },
            }),
    {
        PackageNodeId {
            package,
            peer_context: PeerContext::empty(),
            platform_context: PlatformContext { os: None, arch: None },
        }
    }

    pub fn package(&self) -> (r: &ResolvedPackageId)
        ensures
            r@ == self@.package,
    {
        &self.package
    }

    pub fn peer_context(&self) -> (r: &PeerContext)
        ensures
            r@ == self@.peers,
    {
        &self.peer_context
    }

    pub fn platform_context(&self) -> (r: &PlatformContext)
        ensures
            r@ == self@.platform,
    {
        &self.platform_context
    }

    pub fn with_peer_context(self, peer_context: PeerContext) -> (r: Self)
        ensures
            r@ == (NodeModel { peers: peer_context@, ..self@ }),
    {
        PackageNodeId { peer_context, ..self }
    }

    pub fn with_platform_context(self, platform_context: PlatformContext) -> (r: Self)
        ensures
            r@ == (NodeModel { platform: platform_context@, ..self@ }),
    {
        PackageNodeId { platform_context, ..self }
    }
}

impl SameAs for PackageNodeId {
    fn same_as(&self, other: &Self) -> (b: bool) {
        self.package.same_as(&other.package) && self.peer_context.same_as(&other.peer_context)
            && self.platform_context.same_as(&other.platform_context)
    }
}

/// The peer context is part of a node's identity: nodes that differ only in their
/// peer contexts are different nodes.
pub proof fn lemma_peer_context_in_node_identity(
    node: NodeModel,
    left: Seq<PeerModel>,
    right: Seq<PeerModel>,
)
    requires
        left != right,
    ensures
        (NodeModel { peers: left, ..node }) != (NodeModel { peers: right, ..node }),
{
}

/// The platform context is part of a node's identity: nodes that differ only in their
/// platform contexts are different nodes.
pub proof fn lemma_platform_context_in_node_identity(
    node: NodeModel,
    left: PlatformModel,
    right: PlatformModel,
)
    requires
        left != right,
    ensures
        (NodeModel { platform: left, ..node }) != (NodeModel { platform: right, ..node }),
{
}

/// The model of a dependency edge.
pub struct EdgeModel {
    pub from: NodeModel,
    pub to: NodeModel,
    pub alias: Seq<char>,
    pub kind: DependencyKind,
    pub requested: DependencySpecModel,
}

#[derive(Debug, Clone, PartialEq, Eq, Hash)]
pub struct DependencyEdge {
    pub from: PackageNodeId,
    pub to: PackageNodeId,
    pub alias: PackageName,
    pub kind: DependencyKind,
    pub requested: DependencySpec,
}

impl View for DependencyEdge {
    type V = EdgeModel;

    open spec fn view(&self) -> EdgeModel {
        EdgeModel {
            from: self.from@,
            to: self.to@,
            alias: self.alias@,
            kind: self.kind,
            requested: self.requested@,
        }
    }
}

impl DeepView for DependencyEdge {
    type V = EdgeModel;

    open spec fn deep_view(&self) -> EdgeModel {
        self@
    }
}

impl SameAs for DependencyEdge {
    fn same_as(&self, other: &Self) -> (b: bool) {
        self.from.same_as(&other.from) && self.to.same_as(&other.to) && self.alias.same_as(
            &other.alias,
        ) && same_kind(self.kind, other.kind) && self.requested.same_as(&other.requested)
    }
}

fn same_kind(a: DependencyKind, b: DependencyKind) -> (r: bool)
    ensures
        r == (a == b),
{
    match (a, b) {
        (DependencyKind::Production, DependencyKind::Production) => true,
        (DependencyKind::Development, DependencyKind::Development) => true,
        (DependencyKind::Optional, DependencyKind::Optional) => true,
        (DependencyKind::Peer, DependencyKind::Peer) => true,
        _ => false,
    }
}

} // verus!
