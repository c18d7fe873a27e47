//! Dependencies as manifests request them, before resolution.
use vstd::prelude::*;

use crate::same::{same_text, SameAs};

use crate::name::PackageName;
use crate::source::{same_option, Integrity, SourceUrl};

verus! {

/// The manifest section or relationship that introduced a dependency.
#[derive(Debug, Clone, Copy, PartialEq, Eq, PartialOrd, Ord, Hash)]
pub enum DependencyKind {
    Production,
    Development,
    Optional,
    Peer,
}

#[derive(Debug, Clone, Copy, PartialEq, Eq)]
pub enum NonEmptyStringError {
    Empty,
}

impl NonEmptyStringError {
    pub open spec fn describe(self) -> Seq<char> {
        "value cannot be empty"@
    }

    /// A human-readable description of the error.
    pub fn message(&self) -> (s: String)
        ensures
            s@ == self.describe(),
    {
        "value cannot be empty".to_owned()
    }
}

fn non_empty(value: &str) -> (r: Result<String, NonEmptyStringError>)
    ensures
        match r {
            Ok(s) => value@.len() > 0 && s@ == value@,
            Err(e) => value@.len() == 0 && e == NonEmptyStringError::Empty,
        },
{
    if value.is_empty() {
        Err(NonEmptyStringError::Empty)
    } else {
        Ok(value.to_owned())
    }
}

/// A version requirement, such as `^19.0.0`, kept as written; never empty.
#[derive(Debug, PartialEq, Eq, PartialOrd, Ord, Hash)]
pub struct VersionRange(String);

impl View for VersionRange {
    type V = Seq<char>;

    closed spec fn view(&self) -> Seq<char> {
        self.0@
    }
}

impl DeepView for VersionRange {
    type V = Seq<char>;

    open spec fn deep_view(&self) -> Seq<char> {
        self@
    }
}

impl VersionRange {
    #[verifier::type_invariant]
    closed spec fn non_empty(self) -> bool {
        self.0@.len() > 0
    }

    pub fn new(value: &str) -> (r: Result<Self, NonEmptyStringError>)
        ensures
            match r {
                Ok(v) => value@.len() > 0 && v@ == value@,
                Err(e) => value@.len() == 0 && e == NonEmptyStringError::Empty,
            },
    {
        match non_empty(value) {
            Ok(text) => Ok(VersionRange(text)),
            Err(e) => Err(e),
        }
    }

    /// The text; it is never empty.
    pub fn as_str(&self) -> (s: &str)
        ensures
            s@ == self@,
            self@.len() > 0,
    {
        proof {
            use_type_invariant(self);
        }
        self.0.as_str()
    }
}

impl SameAs for VersionRange {
    fn same_as(&self, other: &Self) -> (b: bool) {
        same_text(self.as_str(), other.as_str())
    }
}

impl Clone for VersionRange {
    fn clone(&self) -> (r: Self)
        ensures
            r@ == self@,
    {
        proof {
            use_type_invariant(self);
        }
        VersionRange(self.0.clone())
    }
}

/// A registry dist-tag, such as `latest`; never empty.
#[derive(Debug, PartialEq, Eq, PartialOrd, Ord, Hash)]
pub struct DistTag(String);

impl View for DistTag {
    type V = Seq<char>;

    closed spec fn view(&self) -> Seq<char> {
        self.0@
    }
}

impl DeepView for DistTag {
    type V = Seq<char>;

    open spec fn deep_view(&self) -> Seq<char> {
        self@
    }
}

impl DistTag {
    #[verifier::type_invariant]
    closed spec fn non_empty(self) -> bool {
        self.0@.len() > 0
    }

    pub fn new(value: &str) -> (r: Result<Self, NonEmptyStringError>)
        ensures
            match r {
                Ok(v) => value@.len() > 0 && v@ == value@,
                Err(e) => value@.len() == 0 && e == NonEmptyStringError::Empty,
            },
    {
        match non_empty(value) {
            Ok(text) => Ok(DistTag(text)),
            Err(e) => Err(e),
        }
    }

    /// The text; it is never empty.
    pub fn as_str(&self) -> (s: &str)
        ensures
            s@ == self@,
            self@.len() > 0,
    {
        proof {
            use_type_invariant(self);
        }
        self.0.as_str()
    }
}

impl SameAs for DistTag {
    fn same_as(&self, other: &Self) -> (b: bool) {
        same_text(self.as_str(), other.as_str())
    }
}

impl Clone for DistTag {
    fn clone(&self) -> (r: Self)
        ensures
            r@ == self@,
    {
        proof {
            use_type_invariant(self);
        }
        DistTag(self.0.clone())
    }
}

/// A git branch, tag or commit name; never empty.
#[derive(Debug, PartialEq, Eq, PartialOrd, Ord, Hash)]
pub struct GitReference(String);

impl View for GitReference {
    type V = Seq<char>;

    closed spec fn view(&self) -> Seq<char> {
        self.0@
    }
}

impl DeepView for GitReference {
    type V = Seq<char>;

    open spec fn deep_view(&self) -> Seq<char> {
        self@
    }
}

impl GitReference {
    #[verifier::type_invariant]
    closed spec fn non_empty(self) -> bool {
        self.0@.len() > 0
    }

    pub fn new(value: &str) -> (r: Result<Self, NonEmptyStringError>)
        ensures
            match r {
                Ok(v) => value@.len() > 0 && v@ == value@,
                Err(e) => value@.len() == 0 && e == NonEmptyStringError::Empty,
            },
    {
        match non_empty(value) {
            Ok(text) => Ok(GitReference(text)),
            Err(e) => Err(e),
        }
    }

    /// The text; it is never empty.
    pub fn as_str(&self) -> (s: &str)
        ensures
            s@ == self@,
            self@.len() > 0,
    {
        proof {
            use_type_invariant(self);
        }
        self.0.as_str()
    }
}

impl SameAs for GitReference {
    fn same_as(&self, other: &Self) -> (b: bool) {
        same_text(self.as_str(), other.as_str())
    }
}

impl Clone for GitReference {
    fn clone(&self) -> (r: Self)
        ensures
            r@ == self@,
    {
        proof {
            use_type_invariant(self);
        }
        GitReference(self.0.clone())
    }
}

/// A directory inside a repository; never empty.
#[derive(Debug, PartialEq, Eq, PartialOrd, Ord, Hash)]
pub struct Subdirectory(String);

impl View for Subdirectory {
    type V = Seq<char>;

    closed spec fn view(&self) -> Seq<char> {
        self.0@
    }
}

impl DeepView for Subdirectory {
    type V = Seq<char>;

    open spec fn deep_view(&self) -> Seq<char> {
        self@
    }
}

impl Subdirectory {
    #[verifier::type_invariant]
    closed spec fn non_empty(self) -> bool {
        self.0@.len() > 0
    }

    pub fn new(value: &str) -> (r: Result<Self, NonEmptyStringError>)
        ensures
            match r {
                Ok(v) => value@.len() > 0 && v@ == value@,
                Err(e) => value@.len() == 0 && e == NonEmptyStringError::Empty,
            },
    {
        match non_empty(value) {
            Ok(text) => Ok(Subdirectory(text)),
            Err(e) => Err(e),
        }
    }

    /// The text; it is never empty.
    pub fn as_str(&self) -> (s: &str)
        ensures
            s@ == self@,
            self@.len() > 0,
    {
        proof {
            use_type_invariant(self);
        }
        self.0.as_str()
    }
}

impl SameAs for Subdirectory {
    fn same_as(&self, other: &Self) -> (b: bool) {
        same_text(self.as_str(), other.as_str())
    }
}

impl Clone for Subdirectory {
    fn clone(&self) -> (r: Self)
        ensures
            r@ == self@,
    {
        proof {
            use_type_invariant(self);
        }
        Subdirectory(self.0.clone())
    }
}


#[derive(Debug, Clone, PartialEq, Eq, Hash)]
pub struct GitSpec {
    pub repository: SourceUrl,
    pub reference: Option<GitReference>,
    pub subdirectory: Option<Subdirectory>,
}

/// A dependency on a local path, kept as the text it was given as.
#[derive(Debug, Clone, PartialEq, Eq, Hash)]
pub struct PathSpec {
    pub path: String,
}

#[derive(Debug, Clone, PartialEq, Eq, Hash)]
pub struct TarballSpec {
    pub url: SourceUrl,
    pub integrity: Option<Integrity>,
}

#[derive(Debug, Clone, PartialEq, Eq, Hash)]
pub struct WorkspaceSpec {
    pub range: Option<VersionRange>,
}

/// A dependency target before zyn resolves it.
#[derive(Debug, Clone, PartialEq, Eq, Hash)]
pub enum DependencySpec {
    RegistryRange { target: PackageName, range: VersionRange },
    DistTag { target: PackageName, tag: DistTag },
    Git(GitSpec),
    Path(PathSpec),
    Tarball(TarballSpec),
    Workspace(WorkspaceSpec),
}

/// The model of a dependency target: its texts, variant by variant.
pub enum DependencySpecModel {
    RegistryRange { target: Seq<char>, range: Seq<char> },
    DistTag { target: Seq<char>, tag: Seq<char> },
    Git { repository: Seq<char>, reference: Option<Seq<char>>, subdirectory: Option<Seq<char>> },
    Path { path: Seq<char> },
    Tarball { url: Seq<char>, integrity: Option<Seq<char>> },
    Workspace { range: Option<Seq<char>> },
}

impl View for DependencySpec {
    type V = DependencySpecModel;

    open spec fn view(&self) -> DependencySpecModel {
        match self {
            DependencySpec::RegistryRange { target, range } => DependencySpecModel::RegistryRange {
                target: target@,
                range: range@,
            },
            DependencySpec::DistTag { target, tag } => DependencySpecModel::DistTag {
                target: target@,
                tag: tag@,
            },
            DependencySpec::Git(g) => DependencySpecModel::Git {
                repository: g.repository@,
                reference: g.reference.deep_view(),
                subdirectory: g.subdirectory.deep_view(),
            },
            DependencySpec::Path(p) => DependencySpecModel::Path { path: p.path@ },
            DependencySpec::Tarball(t) => DependencySpecModel::Tarball {
                url: t.url@,
                integrity: t.integrity.deep_view(),
            },
            DependencySpec::Workspace(w) => DependencySpecModel::Workspace {
                range: w.range.deep_view(),
            },
        }
    }
}

impl DeepView for DependencySpec {
    type V = DependencySpecModel;

    open spec fn deep_view(&self) -> DependencySpecModel {
        self@
    }
}

impl SameAs for DependencySpec {
    fn same_as(&self, other: &Self) -> (b: bool) {
        match (self, other) {
            (
                DependencySpec::RegistryRange { target: t1, range: r1 },
                DependencySpec::RegistryRange { target: t2, range: r2 },
            ) => t1.same_as(t2) && r1.same_as(r2),
            (
                DependencySpec::DistTag { target: t1, tag: g1 },
                DependencySpec::DistTag { target: t2, tag: g2 },
            ) => t1.same_as(t2) && g1.same_as(g2),
            (DependencySpec::Git(a), DependencySpec::Git(b)) => {
                a.repository.same_as(&b.repository) && same_option(&a.reference, &b.reference)
                    && same_option(&a.subdirectory, &b.subdirectory)
            },
            (DependencySpec::Path(a), DependencySpec::Path(b)) => same_text(
                a.path.as_str(),
                b.path.as_str(),
            ),
            (DependencySpec::Tarball(a), DependencySpec::Tarball(b)) => {
                a.url.same_as(&b.url) && same_option(&a.integrity, &b.integrity)
            },
            (DependencySpec::Workspace(a), DependencySpec::Workspace(b)) => same_option(
                &a.range,
                &b.range,
            ),
            _ => false,
        }
    }
}

/// The model of a dependency request.
pub struct RequestModel {
    pub alias: Seq<char>,
    pub spec: DependencySpecModel,
    pub kind: DependencyKind,
}

/// A dependency as requested by a manifest, before resolution chooses concrete bytes.
#[derive(Debug, Clone, PartialEq, Eq, Hash)]
pub struct DependencyRequest {
    pub alias: PackageName,
    pub spec: DependencySpec,
    pub kind: DependencyKind,
}

impl View for DependencyRequest {
    type V = RequestModel;

    open spec fn view(&self) -> RequestModel {
        RequestModel { alias: self.alias@, spec: self.spec@, kind: self.kind }
    }
}

impl DeepView for DependencyRequest {
    type V = RequestModel;

    open spec fn deep_view(&self) -> RequestModel {
        self@
    }
}

impl DependencyRequest {
    pub fn new(alias: PackageName, spec: DependencySpec, kind: DependencyKind) -> (r: Self)
        ensures
            r@ == (RequestModel { alias: alias@, spec: spec@, kind }),
    {
        DependencyRequest { alias, spec, kind }
    }
}

} // verus!
