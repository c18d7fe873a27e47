//! `package.json` manifests read into the dependency model.
use vstd::prelude::*;

use crate::dep_spec::{dependency_spec_result, parse_dependency_spec};
use crate::dependency::{DependencyKind, DependencyRequest, DependencySpecModel, RequestModel};
use crate::manifest_error::{ManifestError, ManifestErrorModel};
use crate::name::{name_error, PackageName};
use crate::same::SameAs;
use crate::version::{version_error, PackageVersion};

verus! {

/// The manifest sections that list dependencies.
#[derive(Debug, Clone, Copy, PartialEq, Eq)]
pub enum DependencySection {
    Dependencies,
    DevDependencies,
    OptionalDependencies,
    PeerDependencies,
}

impl DependencySection {
    pub open spec fn kind_of(self) -> DependencyKind {
        match self {
            DependencySection::Dependencies => DependencyKind::Production,
            DependencySection::DevDependencies => DependencyKind::Development,
            DependencySection::OptionalDependencies => DependencyKind::Optional,
            DependencySection::PeerDependencies => DependencyKind::Peer,
        }
    }

    pub open spec fn name_of(self) -> Seq<char> {
        match self {
            DependencySection::Dependencies => "dependencies"@,
            DependencySection::DevDependencies => "devDependencies"@,
            DependencySection::OptionalDependencies => "optionalDependencies"@,
            DependencySection::PeerDependencies => "peerDependencies"@,
        }
    }

    /// The kind of the dependencies that the section lists.
    pub fn kind(self) -> (k: DependencyKind)
        ensures
            k == self.kind_of(),
    {
        match self {
            DependencySection::Dependencies => DependencyKind::Production,
            DependencySection::DevDependencies => DependencyKind::Development,
            DependencySection::OptionalDependencies => DependencyKind::Optional,
            DependencySection::PeerDependencies => DependencyKind::Peer,
        }
    }

    /// The section's key in `package.json`.
    pub fn as_str(self) -> (s: &'static str)
        ensures
            s@ == self.name_of(),
    {
        match self {
            DependencySection::Dependencies => "dependencies",
            DependencySection::DevDependencies => "devDependencies",
            DependencySection::OptionalDependencies => "optionalDependencies",
            DependencySection::PeerDependencies => "peerDependencies",
        }
    }
}

/// The fields of `package.json` that the dependency model reads, as plain text: the name and
/// version when present, and each dependency section's entries (dependency name and value),
/// in key order.
#[derive(Debug, Clone, PartialEq, Eq)]
pub struct PackageJsonWire {
    pub name: Option<String>,
    pub version: Option<String>,
    pub dependencies: Vec<(String, String)>,
    pub dev_dependencies: Vec<(String, String)>,
    pub optional_dependencies: Vec<(String, String)>,
    pub peer_dependencies: Vec<(String, String)>,
}

/// The texts of section entries.
pub open spec fn entry_texts(v: Seq<(String, String)>) -> Seq<(Seq<char>, Seq<char>)> {
    v.map_values(|e: (String, String)| (e.0@, e.1@))
}

/// The model of the `package.json` fields.
pub struct PackageJsonModel {
    pub name: Option<Seq<char>>,
    pub version: Option<Seq<char>>,
    pub dependencies: Seq<(Seq<char>, Seq<char>)>,
    pub dev_dependencies: Seq<(Seq<char>, Seq<char>)>,
    pub optional_dependencies: Seq<(Seq<char>, Seq<char>)>,
    pub peer_dependencies: Seq<(Seq<char>, Seq<char>)>,
}

impl View for PackageJsonWire {
    type V = PackageJsonModel;

    open spec fn view(&self) -> PackageJsonModel {
        PackageJsonModel {
            name: self.name.deep_view(),
            version: self.version.deep_view(),
            dependencies: entry_texts(self.dependencies@),
            dev_dependencies: entry_texts(self.dev_dependencies@),
            optional_dependencies: entry_texts(self.optional_dependencies@),
            peer_dependencies: entry_texts(self.peer_dependencies@),
        }
    }
}

/// Requests that do not make `alias` a production dependency.
pub open spec fn not_production_of(alias: Seq<char>) -> spec_fn(RequestModel) -> bool {
    |r: RequestModel| !(r.alias == alias && r.kind == DependencyKind::Production)
}

/// The requests after adding the entries of one section, in order: an optional dependency
/// replaces a production dependency of the same name; other sections add to what is there.
pub open spec fn section_result(
    deps: Seq<RequestModel>,
    entries: Seq<(Seq<char>, Seq<char>)>,
    section: DependencySection,
) -> Result<Seq<RequestModel>, ManifestErrorModel>
    decreases entries.len(),
{
    if entries.len() == 0 {
        Ok(deps)
    } else {
        let alias = entries[0].0;
        let raw = entries[0].1;
        match name_error(alias) {
            Some(e) => Err(
                ManifestErrorModel::DependencyName { section: section.name_of(), alias, source: e },
            ),
            None => match dependency_spec_result(section, alias, raw) {
                Err(e) => Err(e),
                Ok(spec) => {
                    let kept = if section == DependencySection::OptionalDependencies {
                        deps.filter(not_production_of(alias))
                    } else {
                        deps
                    };
                    section_result(
                        kept.push(RequestModel { alias, spec, kind: section.kind_of() }),
                        entries.drop_first(),
                        section,
                    )
                },
            },
        }
    }
}

/// The model of a manifest.
pub struct ManifestModel {
    pub name: Option<Seq<char>>,
    pub version: Option<Seq<char>>,
    pub dependencies: Seq<RequestModel>,
}

/// What a manifest reads as: its name, then its version, then the sections
/// `dependencies`, `devDependencies`, `peerDependencies` and `optionalDependencies`.
pub open spec fn manifest_result(w: PackageJsonModel) -> Result<ManifestModel, ManifestErrorModel> {
    let name_error_found = match w.name {
        Some(v) => name_error(v) is Some,
        None => false,
    };
    let version_error_found = match w.version {
        Some(v) => version_error(v) is Some,
        None => false,
    };
    if name_error_found {
        Err(
            ManifestErrorModel::PackageName {
                value: w.name->0,
                source: name_error(w.name->0)->0,
            },
        )
    } else if version_error_found {
        Err(
            ManifestErrorModel::PackageVersion {
                value: w.version->0,
                source: version_error(w.version->0)->0,
            },
        )
    } else {
        match section_result(Seq::empty(), w.dependencies, DependencySection::Dependencies) {
            Err(e) => Err(e),
            Ok(d1) => match section_result(
                d1,
                w.dev_dependencies,
                DependencySection::DevDependencies,
            ) {
                Err(e) => Err(e),
                Ok(d2) => match section_result(
                    d2,
                    w.peer_dependencies,
                    DependencySection::PeerDependencies,
                ) {
                    Err(e) => Err(e),
                    Ok(d3) => match section_result(
                        d3,
                        w.optional_dependencies,
                        DependencySection::OptionalDependencies,
                    ) {
                        Err(e) => Err(e),
                        Ok(d4) => Ok(
                            ManifestModel { name: w.name, version: w.version, dependencies: d4 },
                        ),
                    },
                },
            },
        }
    }
}

/// The model of a manifest reading's outcome.
pub open spec fn manifest_outcome(r: Result<PackageManifest, ManifestError>) -> Result<
    ManifestModel,
    ManifestErrorModel,
> {
    match r {
        Ok(m) => Ok(m@),
        Err(e) => Err(e@),
    }
}

/// Removes the production dependencies named `alias`, keeping the others in order.
fn remove_production(dependencies: &mut Vec<DependencyRequest>, alias: &PackageName)
    ensures
        final(dependencies).deep_view() == old(dependencies).deep_view().filter(
            not_production_of(alias@),
        ),
{
    let ghost pred = not_production_of(alias@);
    let mut all: Vec<DependencyRequest> = Vec::new();
    std::mem::swap(&mut all, dependencies);
    let ghost before = all.deep_view();
    let ghost items = all@;
    assert(dependencies.deep_view() =~= before.take(0).filter(pred)) by {
        reveal(Seq::filter);
    }
    for request in it: all.into_iter()
        invariant
            it.seq() == items,
            before.len() == items.len(),
            forall|k: int| 0 <= k < items.len() ==> #[trigger] before[k] == items[k].deep_view(),
            pred == not_production_of(alias@),
            dependencies.deep_view() == before.take(it.index() as int).filter(pred),
    {
        let ghost i = it.index() as int;
        let ghost kept = dependencies.deep_view();
        assert(request.deep_view() == before[i]);
        assert(before.take(i + 1).drop_last() == before.take(i));
        assert(before.take(i + 1).last() == before[i]);
        let production = match request.kind {
            DependencyKind::Production => true,
            _ => false,
        };
        let same = request.alias.same_as(alias);
        proof {
            reveal(Seq::filter);
        }
        if !(same && production) {
            dependencies.push(request);
            assert(dependencies.deep_view() =~= kept.push(before[i]));
        }
    }
    assert(before.take(before.len() as int) == before);
}

/// Adds the entries of one section, in order.
fn add_dependency_section(
    dependencies: &mut Vec<DependencyRequest>,
    entries: Vec<(String, String)>,
    section: DependencySection,
) -> (r: Result<(), ManifestError>)
    ensures
        match r {
            Ok(_) => section_result(old(dependencies).deep_view(), entry_texts(entries@), section)
                == Ok::<Seq<RequestModel>, ManifestErrorModel>(final(dependencies).deep_view()),
            Err(e) => section_result(old(dependencies).deep_view(), entry_texts(entries@), section)
                == Err::<Seq<RequestModel>, ManifestErrorModel>(e@),
        },
{
    let ghost all = entry_texts(entries@);
    let ghost items = entries@;
    let ghost start = dependencies.deep_view();
    assert(all.skip(0) == all);
    for entry in it: entries.into_iter()
        invariant
            it.seq() == items,
            items == entries@,
            start == old(dependencies).deep_view(),
            all == entry_texts(items),
            section_result(start, all, section) == section_result(
                dependencies.deep_view(),
                all.skip(it.index() as int),
                section,
            ),
    {
        let ghost i = it.index() as int;
        let ghost before = dependencies.deep_view();
        let ghost rest = all.skip(i);
        assert(rest[0] == all[i]);
        assert(rest.drop_first() == all.skip(i + 1));
        assert(all[i] == (entry.0@, entry.1@));
        let (alias, raw_spec) = entry;
        let package_name = match PackageName::new(alias.as_str()) {
            Ok(name) => name,
            Err(source) => {
                return Err(ManifestError::DependencyName { section: section.as_str(), alias, source });
            },
        };
        let spec = match parse_dependency_spec(section, &package_name, raw_spec.as_str()) {
            Ok(spec) => spec,
            Err(e) => {
                return Err(e);
            },
        };
        let ghost spec_model = spec@;
        assert(package_name@ == all[i].0);
        let is_optional = match section {
            DependencySection::OptionalDependencies => true,
            _ => false,
        };
        if is_optional {
            remove_production(dependencies, &package_name);
        }
        let request = DependencyRequest::new(package_name, spec, section.kind());
        dependencies.push(request);
        proof {
            let kept = if section == DependencySection::OptionalDependencies {
                before.filter(not_production_of(all[i].0))
            } else {
                before
            };
            assert(dependencies.deep_view() =~= kept.push(
                RequestModel { alias: all[i].0, spec: spec_model, kind: section.kind_of() },
            ));
        }
    }
    assert(all.skip(all.len() as int).len() == 0);
    Ok(())
}

/// A `package.json` read into the dependency model.
#[derive(Debug, Clone, PartialEq, Eq)]
pub struct PackageManifest {
    name: Option<PackageName>,
    version: Option<PackageVersion>,
    dependencies: Vec<DependencyRequest>,
}

impl View for PackageManifest {
    type V = ManifestModel;

    closed spec fn view(&self) -> ManifestModel {
        ManifestModel {
            name: self.name.deep_view(),
            version: self.version.deep_view(),
            dependencies: self.dependencies.deep_view(),
        }
    }
}

impl PackageManifest {
    /// Reads the manifest fields: the name and version must be valid when present, and every
    /// dependency entry must have a valid name and a supported value.
    pub fn from_package_json(package_json: PackageJsonWire) -> (r: Result<Self, ManifestError>)
        ensures
            manifest_outcome(r) == manifest_result(package_json@),
    {
        let ghost w = package_json@;
        let PackageJsonWire {
            name: raw_name,
            version: raw_version,
            dependencies: production,
            dev_dependencies,
            optional_dependencies,
            peer_dependencies,
        } = package_json;
        let name = match raw_name {
            Some(value) => match PackageName::new(value.as_str()) {
                Ok(name) => Some(name),
                Err(source) => {
                    return Err(ManifestError::PackageName { value, source });
                },
            },
            None => None,
        };
        let version = match raw_version {
            Some(value) => match PackageVersion::new(value.as_str()) {
                Ok(version) => Some(version),
                Err(source) => {
                    return Err(ManifestError::PackageVersion { value, source });
                },
            },
            None => None,
        };
        assert(name.deep_view() == w.name);
        assert(version.deep_view() == w.version);
        let mut dependencies: Vec<DependencyRequest> = Vec::new();
        assert(dependencies.deep_view() =~= Seq::<RequestModel>::empty());
        match add_dependency_section(
            &mut dependencies,
            production,
            DependencySection::Dependencies,
        ) {
            Ok(_) => {},
            Err(e) => {
                return Err(e);
            },
        }
        match add_dependency_section(
            &mut dependencies,
            dev_dependencies,
            DependencySection::DevDependencies,
        ) {
            Ok(_) => {},
            Err(e) => {
                return Err(e);
            },
        }
        match add_dependency_section(
            &mut dependencies,
            peer_dependencies,
            DependencySection::PeerDependencies,
        ) {
            Ok(_) => {},
            Err(e) => {
                return Err(e);
            },
        }
        match add_dependency_section(
            &mut dependencies,
            optional_dependencies,
            DependencySection::OptionalDependencies,
        ) {
            Ok(_) => {},
            Err(e) => {
                return Err(e);
            },
        }
        Ok(PackageManifest { name, version, dependencies })
    }

    pub fn name(&self) -> (r: Option<&PackageName>)
        ensures
            r.deep_view() == self@.name,
    {
        self.name.as_ref()
    }

    pub fn version(&self) -> (r: Option<&PackageVersion>)
        ensures
            r.deep_view() == self@.version,
    {
        self.version.as_ref()
    }

    /// The dependency requests in section order (`dependencies`, `devDependencies`,
    /// `peerDependencies`, `optionalDependencies`), each section in key order.
    pub fn dependencies(&self) -> (r: &[DependencyRequest])
        ensures
            r@.len() == self@.dependencies.len(),
            forall|i: int| 0 <= i < r@.len() ==> r@[i]@ == self@.dependencies[i],
    {
        self.dependencies.as_slice()
    }
}


/// No optional dependency shares its name with a production dependency.
pub open spec fn optional_excludes_production(deps: Seq<RequestModel>) -> bool {
    forall|x: RequestModel, y: RequestModel|
        #![trigger deps.contains(x), deps.contains(y)]
        deps.contains(x) && deps.contains(y) && x.kind == DependencyKind::Optional && y.kind
            == DependencyKind::Production ==> x.alias != y.alias
}

/// No request is an optional dependency.
pub open spec fn has_no_optional(deps: Seq<RequestModel>) -> bool {
    forall|x: RequestModel| deps.contains(x) ==> x.kind != DependencyKind::Optional
}

proof fn lemma_filter_member(deps: Seq<RequestModel>, alias: Seq<char>, x: RequestModel)
    requires
        deps.filter(not_production_of(alias)).contains(x),
    ensures
        deps.contains(x),
        not_production_of(alias)(x),
{
    let f = deps.filter(not_production_of(alias));
    deps.lemma_filter_contains_rev(not_production_of(alias), x);
    let i = choose|i: int| 0 <= i < f.len() && f[i] == x;
    deps.lemma_filter_pred(not_production_of(alias), i);
}

proof fn lemma_section_adds_no_optional(
    deps: Seq<RequestModel>,
    entries: Seq<(Seq<char>, Seq<char>)>,
    section: DependencySection,
)
    requires
        section != DependencySection::OptionalDependencies,
        has_no_optional(deps),
    ensures
        section_result(deps, entries, section) matches Ok(r) ==> has_no_optional(r),
    decreases entries.len(),
{
    if entries.len() > 0 {
        let alias = entries[0].0;
        if name_error(alias) is None {
            if let Ok(spec) = dependency_spec_result(section, alias, entries[0].1) {
                let req = RequestModel { alias, spec, kind: section.kind_of() };
                let next = deps.push(req);
                assert forall|x: RequestModel| next.contains(x) implies x.kind
                    != DependencyKind::Optional by {
                    let i = choose|i: int| 0 <= i < next.len() && next[i] == x;
                    if i < deps.len() {
                        assert(deps.contains(deps[i]));
                    }
                }
                lemma_section_adds_no_optional(next, entries.drop_first(), section);
            }
        }
    }
}

proof fn lemma_optional_section_excludes(
    deps: Seq<RequestModel>,
    entries: Seq<(Seq<char>, Seq<char>)>,
)
    requires
        optional_excludes_production(deps),
    ensures
        section_result(deps, entries, DependencySection::OptionalDependencies) matches Ok(r)
            ==> optional_excludes_production(r),
    decreases entries.len(),
{
    let section = DependencySection::OptionalDependencies;
    if entries.len() > 0 {
        let alias = entries[0].0;
        if name_error(alias) is None {
            if let Ok(spec) = dependency_spec_result(section, alias, entries[0].1) {
                let kept = deps.filter(not_production_of(alias));
                let req = RequestModel { alias, spec, kind: DependencyKind::Optional };
                let next = kept.push(req);
                assert forall|x: RequestModel, y: RequestModel|
                    next.contains(x) && next.contains(y) && x.kind == DependencyKind::Optional
                        && y.kind == DependencyKind::Production implies x.alias != y.alias by {
                    let i = choose|i: int| 0 <= i < next.len() && next[i] == x;
                    let j = choose|j: int| 0 <= j < next.len() && next[j] == y;
                    assert(j < kept.len());
                    assert(kept.contains(y));
                    lemma_filter_member(deps, alias, y);
                    if i < kept.len() {
                        assert(kept.contains(x));
                        lemma_filter_member(deps, alias, x);
                    }
                }
                lemma_optional_section_excludes(next, entries.drop_first());
            }
        }
    }
}

/// Adding a section never drops a request that is not a production dependency: an optional
/// dependency replaces only production dependencies of its name.
pub proof fn lemma_section_keeps_non_production(
    deps: Seq<RequestModel>,
    entries: Seq<(Seq<char>, Seq<char>)>,
    section: DependencySection,
    x: RequestModel,
)
    requires
        deps.contains(x),
        x.kind != DependencyKind::Production,
    ensures
        section_result(deps, entries, section) matches Ok(r) ==> r.contains(x),
    decreases entries.len(),
{
    if entries.len() > 0 {
        let alias = entries[0].0;
        if name_error(alias) is None {
            if let Ok(spec) = dependency_spec_result(section, alias, entries[0].1) {
                let kept = if section == DependencySection::OptionalDependencies {
                    deps.filter(not_production_of(alias))
                } else {
                    deps
                };
                let i = choose|i: int| 0 <= i < deps.len() && deps[i] == x;
                if section == DependencySection::OptionalDependencies {
                    assert(not_production_of(alias)(deps[i]));
                    deps.lemma_filter_contains(not_production_of(alias), i);
                }
                assert(kept.contains(x));
                let next = kept.push(RequestModel { alias, spec, kind: section.kind_of() });
                let j = choose|j: int| 0 <= j < kept.len() && kept[j] == x;
                assert(next[j] == x);
                lemma_section_keeps_non_production(next, entries.drop_first(), section, x);
            }
        }
    }
}

/// Each entry of a section that reads becomes a request of the section's kind, with the
/// entry's name and the target its value reads as.
pub proof fn lemma_section_adds_entries(
    deps: Seq<RequestModel>,
    entries: Seq<(Seq<char>, Seq<char>)>,
    section: DependencySection,
    k: int,
)
    requires
        0 <= k < entries.len(),
    ensures
        section_result(deps, entries, section) matches Ok(r) ==> exists|x: RequestModel|
            #[trigger] r.contains(x) && x.alias == entries[k].0 && x.kind == section.kind_of()
                && dependency_spec_result(section, entries[k].0, entries[k].1) == Ok::<
                DependencySpecModel,
                ManifestErrorModel,
            >(x.spec),
    decreases entries.len(),
{
    let alias = entries[0].0;
    if name_error(alias) is None {
        if let Ok(spec) = dependency_spec_result(section, alias, entries[0].1) {
            let kept = if section == DependencySection::OptionalDependencies {
                deps.filter(not_production_of(alias))
            } else {
                deps
            };
            let req = RequestModel { alias, spec, kind: section.kind_of() };
            let next = kept.push(req);
            let rest = entries.drop_first();
            if k == 0 {
                assert(next[kept.len() as int] == req);
                assert(next.contains(req));
                if req.kind != DependencyKind::Production {
                    lemma_section_keeps_non_production(next, rest, section, req);
                } else {
                    lemma_section_keeps_production(next, rest, section, req);
                }
                if let Ok(r) = section_result(next, rest, section) {
                    assert(r.contains(req));
                }
            } else {
                lemma_section_adds_entries(next, rest, section, k - 1);
                assert(rest[k - 1] == entries[k]);
            }
        }
    }
}

/// In a section other than `optionalDependencies` nothing that is there is removed.
proof fn lemma_section_keeps_production(
    deps: Seq<RequestModel>,
    entries: Seq<(Seq<char>, Seq<char>)>,
    section: DependencySection,
    x: RequestModel,
)
    requires
        deps.contains(x),
        section != DependencySection::OptionalDependencies,
    ensures
        section_result(deps, entries, section) matches Ok(r) ==> r.contains(x),
    decreases entries.len(),
{
    if entries.len() > 0 {
        let alias = entries[0].0;
        if name_error(alias) is None {
            if let Ok(spec) = dependency_spec_result(section, alias, entries[0].1) {
                let next = deps.push(RequestModel { alias, spec, kind: section.kind_of() });
                let j = choose|j: int| 0 <= j < deps.len() && deps[j] == x;
                assert(next[j] == x);
                lemma_section_keeps_production(next, entries.drop_first(), section, x);
            }
        }
    }
}

/// Reading `optionalDependencies` removes only production dependencies: in a manifest that
/// reads, every `devDependencies` and every `peerDependencies` entry is a request of its kind,
/// whatever the optional dependencies are named.
pub proof fn lemma_dev_and_peer_requests_kept(w: PackageJsonModel)
    ensures
        manifest_result(w) matches Ok(m) ==> {
            &&& forall|k: int|
                #![trigger w.dev_dependencies[k]]
                0 <= k < w.dev_dependencies.len() ==> exists|x: RequestModel|
                    #[trigger] m.dependencies.contains(x) && x.alias == w.dev_dependencies[k].0
                        && x.kind == DependencyKind::Development
            &&& forall|k: int|
                #![trigger w.peer_dependencies[k]]
                0 <= k < w.peer_dependencies.len() ==> exists|x: RequestModel|
                    #[trigger] m.dependencies.contains(x) && x.alias == w.peer_dependencies[k].0
                        && x.kind == DependencyKind::Peer
        },
{
    let empty = Seq::<RequestModel>::empty();
    if let Ok(m) = manifest_result(w) {
        let d1 = section_result(empty, w.dependencies, DependencySection::Dependencies)->Ok_0;
        let d2 = section_result(d1, w.dev_dependencies, DependencySection::DevDependencies)->Ok_0;
        let d3 = section_result(d2, w.peer_dependencies, DependencySection::PeerDependencies)->Ok_0;
        let d4 = m.dependencies;
        assert(section_result(d3, w.optional_dependencies, DependencySection::OptionalDependencies)
            == Ok::<Seq<RequestModel>, ManifestErrorModel>(d4));
        assert forall|k: int|
            #![trigger w.dev_dependencies[k]]
            0 <= k < w.dev_dependencies.len() implies exists|x: RequestModel|
            #[trigger] d4.contains(x) && x.alias == w.dev_dependencies[k].0 && x.kind
                == DependencyKind::Development by {
            let dev = DependencySection::DevDependencies;
            lemma_section_adds_entries(d1, w.dev_dependencies, dev, k);
            let x = choose|x: RequestModel|
                #[trigger] d2.contains(x) && x.alias == w.dev_dependencies[k].0 && x.kind
                    == DependencyKind::Development && dependency_spec_result(
                    DependencySection::DevDependencies,
                    w.dev_dependencies[k].0,
                    w.dev_dependencies[k].1,
                ) == Ok::<DependencySpecModel, ManifestErrorModel>(x.spec);
            let peer = DependencySection::PeerDependencies;
            let optional = DependencySection::OptionalDependencies;
            lemma_section_keeps_production(d2, w.peer_dependencies, peer, x);
            lemma_section_keeps_non_production(d3, w.optional_dependencies, optional, x);
            assert(d4.contains(x));
        }
        assert forall|k: int|
            #![trigger w.peer_dependencies[k]]
            0 <= k < w.peer_dependencies.len() implies exists|x: RequestModel|
            #[trigger] d4.contains(x) && x.alias == w.peer_dependencies[k].0 && x.kind
                == DependencyKind::Peer by {
            let peer = DependencySection::PeerDependencies;
            lemma_section_adds_entries(d2, w.peer_dependencies, peer, k);
            let x = choose|x: RequestModel|
                #[trigger] d3.contains(x) && x.alias == w.peer_dependencies[k].0 && x.kind
                    == DependencyKind::Peer && dependency_spec_result(
                    DependencySection::PeerDependencies,
                    w.peer_dependencies[k].0,
                    w.peer_dependencies[k].1,
                ) == Ok::<DependencySpecModel, ManifestErrorModel>(x.spec);
            let optional = DependencySection::OptionalDependencies;
            lemma_section_keeps_non_production(d3, w.optional_dependencies, optional, x);
            assert(d4.contains(x));
        }
    }
}

/// Optional dependencies override production dependencies: in a manifest that reads,
/// no name is both an optional and a production dependency.
pub proof fn lemma_optional_overrides_production(w: PackageJsonModel)
    ensures
        manifest_result(w) matches Ok(m) ==> optional_excludes_production(m.dependencies),
{
    let empty = Seq::<RequestModel>::empty();
    lemma_section_adds_no_optional(empty, w.dependencies, DependencySection::Dependencies);
    if let Ok(d1) = section_result(empty, w.dependencies, DependencySection::Dependencies) {
        lemma_section_adds_no_optional(d1, w.dev_dependencies, DependencySection::DevDependencies);
        if let Ok(d2) = section_result(d1, w.dev_dependencies, DependencySection::DevDependencies) {
            lemma_section_adds_no_optional(
                d2,
                w.peer_dependencies,
                DependencySection::PeerDependencies,
            );
            if let Ok(d3) = section_result(
                d2,
                w.peer_dependencies,
                DependencySection::PeerDependencies,
            ) {
                assert(optional_excludes_production(d3));
                lemma_optional_section_excludes(d3, w.optional_dependencies);
            }
        }
    }
}

} // verus!
