//! Resolved package sources, before zyn-managed patches are applied.
use vstd::prelude::*;

use crate::dependency::{GitReference, Subdirectory};
use crate::same::{same_text, SameAs};

verus! {

#[derive(Debug, Clone, Copy, PartialEq, Eq)]
pub enum SourceTextError {
    Empty,
}

impl SourceTextError {
    pub open spec fn describe(self) -> Seq<char> {
        "source text cannot be empty"@
    }

    /// A human-readable description of the error.
    pub fn message(&self) -> (s: String)
        ensures
            s@ == self.describe(),
    {
        "source text cannot be empty".to_owned()
    }
}

fn non_empty(value: &str) -> (r: Result<String, SourceTextError>)
    ensures
        match r {
            Ok(s) => value@.len() > 0 && s@ == value@,
            Err(e) => value@.len() == 0 && e == SourceTextError::Empty,
        },
{
    if value.is_empty() {
        Err(SourceTextError::Empty)
    } else {
        Ok(value.to_owned())
    }
}

/// The URL of a registry, repository or tarball; never empty.
#[derive(Debug, PartialEq, Eq, PartialOrd, Ord, Hash)]
pub struct SourceUrl(String);

impl View for SourceUrl {
    type V = Seq<char>;

    closed spec fn view(&self) -> Seq<char> {
        self.0@
    }
}

impl DeepView for SourceUrl {
    type V = Seq<char>;

    open spec fn deep_view(&self) -> Seq<char> {
        self@
    }
}

impl SourceUrl {
    #[verifier::type_invariant]
    closed spec fn non_empty(self) -> bool {
        self.0@.len() > 0
    }

    pub fn new(value: &str) -> (r: Result<Self, SourceTextError>)
        ensures
            match r {
                Ok(v) => value@.len() > 0 && v@ == value@,
                Err(e) => value@.len() == 0 && e == SourceTextError::Empty,
            },
    {
        match non_empty(value) {
            Ok(text) => Ok(SourceUrl(text)),
            Err(e) => Err(e),
        }
    }

    /// The text; it is never empty.
    pub fn as_str(&self) -> (s: &str)
        ensures
            s@ == self@,
            self@.len() > 0,
    {
        proof {
            use_type_invariant(self);
        }
        self.0.as_str()
    }
}

impl SameAs for SourceUrl {
    fn same_as(&self, other: &Self) -> (b: bool) {
        same_text(self.as_str(), other.as_str())
    }
}

impl Clone for SourceUrl {
    fn clone(&self) -> (r: Self)
        ensures
            r@ == self@,
    {
        proof {
            use_type_invariant(self);
        }
        SourceUrl(self.0.clone())
    }
}

/// A subresource integrity string, such as `sha512-...`; never empty.
#[derive(Debug, PartialEq, Eq, PartialOrd, Ord, Hash)]
pub struct Integrity(String);

impl View for Integrity {
    type V = Seq<char>;

    closed spec fn view(&self) -> Seq<char> {
        self.0@
    }
}

impl DeepView for Integrity {
    type V = Seq<char>;

    open spec fn deep_view(&self) -> Seq<char> {
        self@
    }
}

impl Integrity {
    #[verifier::type_invariant]
    closed spec fn non_empty(self) -> bool {
        self.0@.len() > 0
    }

    pub fn new(value: &str) -> (r: Result<Self, SourceTextError>)
        ensures
            match r {
                Ok(v) => value@.len() > 0 && v@ == value@,
                Err(e) => value@.len() == 0 && e == SourceTextError::Empty,
            },
    {
        match non_empty(value) {
            Ok(text) => Ok(Integrity(text)),
            Err(e) => Err(e),
        }
    }

    /// The text; it is never empty.
    pub fn as_str(&self) -> (s: &str)
        ensures
            s@ == self@,
            self@.len() > 0,
    {
        proof {
            use_type_invariant(self);
        }
        self.0.as_str()
    }
}

impl SameAs for Integrity {
    fn same_as(&self, other: &Self) -> (b: bool) {
        same_text(self.as_str(), other.as_str())
    }
}

impl Clone for Integrity {
    fn clone(&self) -> (r: Self)
        ensures
            r@ == self@,
    {
        proof {
            use_type_invariant(self);
        }
        Integrity(self.0.clone())
    }
}

/// A content hash text; never empty.
#[derive(Debug, PartialEq, Eq, PartialOrd, Ord, Hash)]
pub(crate) struct ContentHash(String);

impl View for ContentHash {
    type V = Seq<char>;

    closed spec fn view(&self) -> Seq<char> {
        self.0@
    }
}

impl DeepView for ContentHash {
    type V = Seq<char>;

    open spec fn deep_view(&self) -> Seq<char> {
        self@
    }
}

impl ContentHash {
    #[verifier::type_invariant]
    closed spec fn non_empty(self) -> bool {
        self.0@.len() > 0
    }

    pub fn new(value: &str) -> (r: Result<Self, SourceTextError>)
        ensures
            match r {
                Ok(v) => value@.len() > 0 && v@ == value@,
                Err(e) => value@.len() == 0 && e == SourceTextError::Empty,
            },
    {
        match non_empty(value) {
            Ok(text) => Ok(ContentHash(text)),
            Err(e) => Err(e),
        }
    }

    /// The text; it is never empty.
    pub fn as_str(&self) -> (s: &str)
        ensures
            s@ == self@,
            self@.len() > 0,
    {
        proof {
            use_type_invariant(self);
        }
        self.0.as_str()
    }
}

impl SameAs for ContentHash {
    fn same_as(&self, other: &Self) -> (b: bool) {
        same_text(self.as_str(), other.as_str())
    }
}

impl Clone for ContentHash {
    fn clone(&self) -> (r: Self)
        ensures
            r@ == self@,
    {
        proof {
            use_type_invariant(self);
        }
        ContentHash(self.0.clone())
    }
}

/// A resolved git commit; never empty.
#[derive(Debug, PartialEq, Eq, PartialOrd, Ord, Hash)]
pub struct GitCommit(String);

impl View for GitCommit {
    type V = Seq<char>;

    closed spec fn view(&self) -> Seq<char> {
        self.0@
    }
}

impl DeepView for GitCommit {
    type V = Seq<char>;

    open spec fn deep_view(&self) -> Seq<char> {
        self@
    }
}

impl GitCommit {
    #[verifier::type_invariant]
    closed spec fn non_empty(self) -> bool {
        self.0@.len() > 0
    }

    pub fn new(value: &str) -> (r: Result<Self, SourceTextError>)
        ensures
            match r {
                Ok(v) => value@.len() > 0 && v@ == value@,
                Err(e) => value@.len() == 0 && e == SourceTextError::Empty,
            },
    {
        match non_empty(value) {
            Ok(text) => Ok(GitCommit(text)),
            Err(e) => Err(e),
        }
    }

    /// The text; it is never empty.
    pub fn as_str(&self) -> (s: &str)
        ensures
            s@ == self@,
            self@.len() > 0,
    {
        proof {
            use_type_invariant(self);
        }
        self.0.as_str()
    }
}

impl SameAs for GitCommit {
    fn same_as(&self, other: &Self) -> (b: bool) {
        same_text(self.as_str(), other.as_str())
    }
}

impl Clone for GitCommit {
    fn clone(&self) -> (r: Self)
        ensures
            r@ == self@,
    {
        proof {
            use_type_invariant(self);
        }
        GitCommit(self.0.clone())
    }
}


/// A content hash of package bytes.
#[derive(Debug, PartialEq, Eq, PartialOrd, Ord, Hash)]
pub struct PackageContentHash(ContentHash);

impl View for PackageContentHash {
    type V = Seq<char>;

    closed spec fn view(&self) -> Seq<char> {
        self.0@
    }
}

impl DeepView for PackageContentHash {
    type V = Seq<char>;

    open spec fn deep_view(&self) -> Seq<char> {
        self@
    }
}

impl PackageContentHash {
    pub fn new(value: &str) -> (r: Result<Self, SourceTextError>)
        ensures
            match r {
                Ok(v) => value@.len() > 0 && v@ == value@,
                Err(e) => value@.len() == 0 && e == SourceTextError::Empty,
            },
    {
        match ContentHash::new(value) {
            Ok(hash) => Ok(PackageContentHash(hash)),
            Err(e) => Err(e),
        }
    }

    /// The hash text; it is never empty.
    pub fn as_str(&self) -> (s: &str)
        ensures
            s@ == self@,
            self@.len() > 0,
    {
        self.0.as_str()
    }
}

impl SameAs for PackageContentHash {
    fn same_as(&self, other: &Self) -> (b: bool) {
        same_text(self.as_str(), other.as_str())
    }
}

impl Clone for PackageContentHash {
    fn clone(&self) -> (r: Self)
        ensures
            r@ == self@,
    {
        PackageContentHash(self.0.clone())
    }
}

/// A content hash of a patch file.
#[derive(Debug, PartialEq, Eq, PartialOrd, Ord, Hash)]
pub struct PatchContentHash(ContentHash);

impl View for PatchContentHash {
    type V = Seq<char>;

    closed spec fn view(&self) -> Seq<char> {
        self.0@
    }
}

impl DeepView for PatchContentHash {
    type V = Seq<char>;

    open spec fn deep_view(&self) -> Seq<char> {
        self@
    }
}

impl PatchContentHash {
    pub fn new(value: &str) -> (r: Result<Self, SourceTextError>)
        ensures
            match r {
                Ok(v) => value@.len() > 0 && v@ == value@,
                Err(e) => value@.len() == 0 && e == SourceTextError::Empty,
            },
    {
        match ContentHash::new(value) {
            Ok(hash) => Ok(PatchContentHash(hash)),
            Err(e) => Err(e),
        }
    }

    /// The hash text; it is never empty.
    pub fn as_str(&self) -> (s: &str)
        ensures
            s@ == self@,
            self@.len() > 0,
    {
        self.0.as_str()
    }
}

impl SameAs for PatchContentHash {
    fn same_as(&self, other: &Self) -> (b: bool) {
        same_text(self.as_str(), other.as_str())
    }
}

impl Clone for PatchContentHash {
    fn clone(&self) -> (r: Self)
        ensures
            r@ == self@,
    {
        PatchContentHash(self.0.clone())
    }
}

/// Equality of two optional values by their models.
pub fn same_option<T: SameAs>(a: &Option<T>, b: &Option<T>) -> (r: bool)
    ensures
        r == (a.deep_view() == b.deep_view()),
{
    match (a, b) {
        (Some(x), Some(y)) => x.same_as(y),
        (None, None) => true,
        _ => false,
    }
}

#[derive(Debug, PartialEq, Eq, Hash)]
pub struct NpmSource {
    pub registry: SourceUrl,
    pub tarball: SourceUrl,
    pub integrity: Integrity,
}

#[derive(Debug, PartialEq, Eq, Hash)]
pub struct GitSource {
    pub repository: SourceUrl,
    pub commit: GitCommit,
    pub reference: Option<GitReference>,
    pub subdirectory: Option<Subdirectory>,
}

/// A package read from a path; the path is kept as the text it was given as.
#[derive(Debug, PartialEq, Eq, Hash)]
pub struct PathSource {
    pub path: String,
}

#[derive(Debug, PartialEq, Eq, Hash)]
pub struct TarballSource {
    pub url: SourceUrl,
    pub integrity: Integrity,
}

#[derive(Debug, PartialEq, Eq, Hash)]
pub struct WorkspaceSource {
    pub path: String,
}

#[derive(Debug, PartialEq, Eq, Hash)]
pub struct VendoredSource {
    pub path: String,
    pub content_hash: PackageContentHash,
}

/// The resolved source for a package before applying zyn-managed patches.
#[derive(Debug, PartialEq, Eq, Hash)]
pub enum PackageSource {
    Npm(NpmSource),
    Git(GitSource),
    Path(PathSource),
    Tarball(TarballSource),
    Workspace(WorkspaceSource),
    Vendored(VendoredSource),
}

/// The model of a package source: its texts, variant by variant.
pub enum SourceModel {
    Npm { registry: Seq<char>, tarball: Seq<char>, integrity: Seq<char> },
    Git {
        repository: Seq<char>,
        commit: Seq<char>,
        reference: Option<Seq<char>>,
        subdirectory: Option<Seq<char>>,
    },
    Path { path: Seq<char> },
    Tarball { url: Seq<char>, integrity: Seq<char> },
    Workspace { path: Seq<char> },
    Vendored { path: Seq<char>, content_hash: Seq<char> },
}

impl View for PackageSource {
    type V = SourceModel;

    open spec fn view(&self) -> SourceModel {
        match self {
            PackageSource::Npm(s) => SourceModel::Npm {
                registry: s.registry@,
                tarball: s.tarball@,
                integrity: s.integrity@,
            },
            PackageSource::Git(s) => SourceModel::Git {
                repository: s.repository@,
                commit: s.commit@,
                reference: s.reference.deep_view(),
                subdirectory: s.subdirectory.deep_view(),
            },
            PackageSource::Path(s) => SourceModel::Path { path: s.path@ },
            PackageSource::Tarball(s) => SourceModel::Tarball {
                url: s.url@,
                integrity: s.integrity@,
            },
            PackageSource::Workspace(s) => SourceModel::Workspace { path: s.path@ },
            PackageSource::Vendored(s) => SourceModel::Vendored {
                path: s.path@,
                content_hash: s.content_hash@,
            },
        }
    }
}

impl DeepView for PackageSource {
    type V = SourceModel;

    open spec fn deep_view(&self) -> SourceModel {
        self@
    }
}

impl PackageSource {
    /// Sources on the local disk: paths, workspace members and vendored copies.
    pub fn is_local(&self) -> (b: bool)
        ensures
            b == (self is Path || self is Workspace || self is Vendored),
    {
        match self {
            PackageSource::Path(_) | PackageSource::Workspace(_) | PackageSource::Vendored(_) => true,
            _ => false,
        }
    }
}

impl SameAs for PackageSource {
    fn same_as(&self, other: &Self) -> (b: bool) {
        match (self, other) {
            (PackageSource::Npm(a), PackageSource::Npm(b)) => {
                a.registry.same_as(&b.registry) && a.tarball.same_as(&b.tarball)
                    && a.integrity.same_as(&b.integrity)
            },
            (PackageSource::Git(a), PackageSource::Git(b)) => {
                a.repository.same_as(&b.repository) && a.commit.same_as(&b.commit) && same_option(
                    &a.reference,
                    &b.reference,
                ) && same_option(&a.subdirectory, &b.subdirectory)
            },
            (PackageSource::Path(a), PackageSource::Path(b)) => same_text(
                a.path.as_str(),
                b.path.as_str(),
            ),
            (PackageSource::Tarball(a), PackageSource::Tarball(b)) => {
                a.url.same_as(&b.url) && a.integrity.same_as(&b.integrity)
            },
            (PackageSource::Workspace(a), PackageSource::Workspace(b)) => same_text(
                a.path.as_str(),
                b.path.as_str(),
            ),
            (PackageSource::Vendored(a), PackageSource::Vendored(b)) => {
                same_text(a.path.as_str(), b.path.as_str()) && a.content_hash.same_as(
                    &b.content_hash,
                )
            },
            _ => false,
        }
    }
}


impl Clone for NpmSource {
    fn clone(&self) -> (r: Self)
        ensures
            r.registry@ == self.registry@,
            r.tarball@ == self.tarball@,
            r.integrity@ == self.integrity@,
    {
        NpmSource {
            registry: self.registry.clone(),
            tarball: self.tarball.clone(),
            integrity: self.integrity.clone(),
        }
    }
}

impl Clone for GitSource {
    fn clone(&self) -> (r: Self)
        ensures
            r.repository@ == self.repository@,
            r.commit@ == self.commit@,
            r.reference.deep_view() == self.reference.deep_view(),
            r.subdirectory.deep_view() == self.subdirectory.deep_view(),
    {
        let reference = match &self.reference {
            Some(x) => Some(x.clone()),
            None => None,
        };
        let subdirectory = match &self.subdirectory {
            Some(x) => Some(x.clone()),
            None => None,
        };
        GitSource {
            repository: self.repository.clone(),
            commit: self.commit.clone(),
            reference,
            subdirectory,
        }
    }
}

impl Clone for PathSource {
    fn clone(&self) -> (r: Self)
        ensures
            r.path@ == self.path@,
    {
        PathSource { path: self.path.clone() }
    }
}

impl Clone for TarballSource {
    fn clone(&self) -> (r: Self)
        ensures
            r.url@ == self.url@,
            r.integrity@ == self.integrity@,
    {
        TarballSource { url: self.url.clone(), integrity: self.integrity.clone() }
    }
}

impl Clone for WorkspaceSource {
    fn clone(&self) -> (r: Self)
        ensures
            r.path@ == self.path@,
    {
        WorkspaceSource { path: self.path.clone() }
    }
}

impl Clone for VendoredSource {
    fn clone(&self) -> (r: Self)
        ensures
            r.path@ == self.path@,
            r.content_hash@ == self.content_hash@,
    {
        VendoredSource { path: self.path.clone(), content_hash: self.content_hash.clone() }
    }
}

impl Clone for PackageSource {
    fn clone(&self) -> (r: Self)
        ensures
            r@ == self@,
    {
        match self {
            PackageSource::Npm(s) => PackageSource::Npm(s.clone()),
            PackageSource::Git(s) => PackageSource::Git(s.clone()),
            PackageSource::Path(s) => PackageSource::Path(s.clone()),
            PackageSource::Tarball(s) => PackageSource::Tarball(s.clone()),
            PackageSource::Workspace(s) => PackageSource::Workspace(s.clone()),
            PackageSource::Vendored(s) => PackageSource::Vendored(s.clone()),
        }
    }
}

} // verus!
