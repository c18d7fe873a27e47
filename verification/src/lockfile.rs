//! The resolved dependency graph as `zyn.lock` records it.
use vstd::prelude::*;

use crate::graph::{DependencyEdge, EdgeModel, NodeModel, PackageNodeId};
use crate::same::{find_repeat, lemma_repeats_no_duplicates, repeats_at, SameAs};

verus! {

pub const LOCKFILE_VERSION: u32 = 1;

pub const LOCKFILE_REVISION: u32 = 0;

#[derive(Debug, Clone, Copy, PartialEq, Eq)]
pub enum LockfileError {
    DuplicatePackage,
    DuplicateEdge,
    UnknownEdgeEndpoint,
}

impl LockfileError {
    pub open spec fn describe(self) -> Seq<char> {
        match self {
            LockfileError::DuplicatePackage => "lockfile contains a duplicate package"@,
            LockfileError::DuplicateEdge => "lockfile contains a duplicate edge"@,
            LockfileError::UnknownEdgeEndpoint => "lockfile edge points to a package that is not locked"@,
        }
    }

    /// A human-readable description of the error.
    pub fn message(&self) -> (s: String)
        ensures
            s@ == self.describe(),
    {
        match self {
            LockfileError::DuplicatePackage => "lockfile contains a duplicate package".to_owned(),
            LockfileError::DuplicateEdge => "lockfile contains a duplicate edge".to_owned(),
            LockfileError::UnknownEdgeEndpoint => "lockfile edge points to a package that is not locked".to_owned(),
        }
    }
}

/// What is wrong with edge `j`: it repeats an earlier edge, or an endpoint is not locked.
pub open spec fn edge_problem(pkgs: Seq<NodeModel>, es: Seq<EdgeModel>, j: int) -> Option<
    LockfileError,
> {
    if repeats_at(es, j) {
        Some(LockfileError::DuplicateEdge)
    } else if !(pkgs.contains(es[j].from) && pkgs.contains(es[j].to)) {
        Some(LockfileError::UnknownEdgeEndpoint)
    } else {
        None
    }
}

/// The problem of the first edge, from index `i` on, that has one.
pub open spec fn edges_error_from(pkgs: Seq<NodeModel>, es: Seq<EdgeModel>, i: int) -> Option<
    LockfileError,
>
    decreases es.len() - i,
{
    if i < 0 || i >= es.len() {
        None
    } else {
        match edge_problem(pkgs, es, i) {
            Some(e) => Some(e),
            None => edges_error_from(pkgs, es, i + 1),
        }
    }
}

/// Why packages and edges do not form a lockfile, checked in order: a repeated package,
/// then the edges one by one.
pub open spec fn lockfile_error(pkgs: Seq<NodeModel>, es: Seq<EdgeModel>) -> Option<LockfileError> {
    if !pkgs.no_duplicates() {
        Some(LockfileError::DuplicatePackage)
    } else {
        edges_error_from(pkgs, es, 0)
    }
}

/// In a lockfile, no package or edge occurs twice and every edge joins locked packages.
pub proof fn lemma_lockfile_edges_known(pkgs: Seq<NodeModel>, es: Seq<EdgeModel>, j: int)
    requires
        lockfile_error(pkgs, es) is None,
        0 <= j < es.len(),
    ensures
        pkgs.no_duplicates(),
        es.no_duplicates(),
        pkgs.contains(es[j].from),
        pkgs.contains(es[j].to),
{
    lemma_edges_fine_from(pkgs, es, 0);
    assert(edge_problem(pkgs, es, j) is None);
    lemma_repeats_no_duplicates(es);
}

proof fn lemma_edges_fine_from(pkgs: Seq<NodeModel>, es: Seq<EdgeModel>, i: int)
    requires
        0 <= i <= es.len(),
        edges_error_from(pkgs, es, i) is None,
    ensures
        forall|j: int| i <= j < es.len() ==> #[trigger] edge_problem(pkgs, es, j) is None,
        forall|j: int| i <= j < es.len() ==> !#[trigger] repeats_at(es, j),
    decreases es.len() - i,
{
    if i < es.len() {
        lemma_edges_fine_from(pkgs, es, i + 1);
        assert forall|j: int| i <= j < es.len() implies !#[trigger] repeats_at(es, j) by {
            assert(edge_problem(pkgs, es, j) is None);
        }
    }
}

/// The model of a lockfile.
pub struct LockfileModel {
    pub version: u32,
    pub revision: u32,
    pub packages: Seq<NodeModel>,
    pub edges: Seq<EdgeModel>,
}

/// The resolved dependency graph represented by `zyn.lock`.
#[derive(Debug, Clone, PartialEq, Eq)]
pub struct Lockfile {
    pub version: u32,
    pub revision: u32,
    pub packages: Vec<PackageNodeId>,
    pub edges: Vec<DependencyEdge>,
}

impl View for Lockfile {
    type V = LockfileModel;

    open spec fn view(&self) -> LockfileModel {
        LockfileModel {
            version: self.version,
            revision: self.revision,
            packages: self.packages.deep_view(),
            edges: self.edges.deep_view(),
        }
    }
}

fn contains_node(pkgs: &Vec<PackageNodeId>, node: &PackageNodeId) -> (r: bool)
    ensures
        r == pkgs.deep_view().contains(node@),
{
    let ghost s = pkgs.deep_view();
    let mut i: usize = 0;
    while i < pkgs.len()
        invariant
            s == pkgs.deep_view(),
            i <= s.len(),
            forall|k: int| 0 <= k < i ==> s[k] != node@,
        decreases s.len() - i,
    {
        if pkgs[i].same_as(node) {
            assert(s[i as int] == node@);
            return true;
        }
        i = i + 1;
    }
    false
}

impl Lockfile {
    /// A lockfile of the current format version holding the given packages and edges:
    /// no package or edge may occur twice, and every edge must join locked packages.
    pub fn new(packages: Vec<PackageNodeId>, edges: Vec<DependencyEdge>) -> (r: Result<
        Self,
        LockfileError,
    >)
        ensures
            match r {
                Ok(lockfile) => {
                    &&& lockfile_error(packages.deep_view(), edges.deep_view()) is None
                    &&& lockfile@ == (LockfileModel {
                        version: LOCKFILE_VERSION,
                        revision: LOCKFILE_REVISION,
                        packages: packages.deep_view(),
                        edges: edges.deep_view(),
                    })
                },
                Err(e) => lockfile_error(packages.deep_view(), edges.deep_view()) == Some(e),
            },
    {
        let ghost pkgs = packages.deep_view();
        let ghost es = edges.deep_view();
        if find_repeat(&packages).is_some() {
            return Err(LockfileError::DuplicatePackage);
        }
        let mut j: usize = 0;
        while j < edges.len()
            invariant
                pkgs == packages.deep_view(),
                es == edges.deep_view(),
                pkgs.no_duplicates(),
                j <= es.len(),
                edges_error_from(pkgs, es, 0) == edges_error_from(pkgs, es, j as int),
            decreases es.len() - j,
        {
            let edge = &edges[j];
            assert(es[j as int] == edge@);
            let mut k: usize = 0;
            while k < j
                invariant
                    es == edges.deep_view(),
                    pkgs == packages.deep_view(),
                    pkgs.no_duplicates(),
                    edges_error_from(pkgs, es, 0) == edges_error_from(pkgs, es, j as int),
                    edge@ == es[j as int],
                    k <= j < es.len(),
                    forall|m: int| 0 <= m < k ==> es[m] != es[j as int],
                decreases j - k,
            {
                assert(es[k as int] == edges@[k as int]@);
                if edges[k].same_as(edge) {
                    assert(es.take(j as int)[k as int] == es[j as int]);
                    assert(repeats_at(es, j as int));
                    return Err(LockfileError::DuplicateEdge);
                }
                k = k + 1;
            }
            assert(!repeats_at(es, j as int)) by {
                if repeats_at(es, j as int) {
                    let m = choose|m: int|
                        0 <= m < es.take(j as int).len() && es.take(j as int)[m] == es[j as int];
                    assert(es[m] == es[j as int]);
                }
            }
            if !contains_node(&packages, &edge.from) || !contains_node(&packages, &edge.to) {
                return Err(LockfileError::UnknownEdgeEndpoint);
            }
            j = j + 1;
        }
        Ok(Lockfile { version: LOCKFILE_VERSION, revision: LOCKFILE_REVISION, packages, edges })
    }

    pub fn is_empty(&self) -> (b: bool)
        ensures
            b == (self@.packages.len() == 0 && self@.edges.len() == 0),
    {
        self.packages.len() == 0 && self.edges.len() == 0
    }
}

impl Default for Lockfile {
    /// An empty lockfile of the current format version.
    fn default() -> (r: Self)
        ensures
            r@ == (LockfileModel {
                version: LOCKFILE_VERSION,
                revision: LOCKFILE_REVISION,
                packages: Seq::empty(),
                edges: Seq::empty(),
            }),
    {
        let packages: Vec<PackageNodeId> = Vec::new();
        let edges: Vec<DependencyEdge> = Vec::new();
        assert(packages.deep_view() =~= Seq::<NodeModel>::empty());
        assert(edges.deep_view() =~= Seq::<EdgeModel>::empty());
        Lockfile { version: LOCKFILE_VERSION, revision: LOCKFILE_REVISION, packages, edges }
    }
}

} // verus!
