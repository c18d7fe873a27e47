//! Reading one dependency value of a manifest section into a dependency target.
use vstd::prelude::*;

use crate::dependency::{
    DependencySpec, DependencySpecModel, DistTag, NonEmptyStringError, PathSpec, TarballSpec,
    VersionRange, WorkspaceSpec,
};
use crate::manifest::DependencySection;
use crate::manifest_error::{ManifestError, ManifestErrorModel};
use crate::name::{is_ascii_alnum, name_error, PackageName};
use crate::source::SourceUrl;
use crate::text::{
    chars_of, compare_text, contains_char, ends_with, has_infix, has_prefix, has_suffix, occurs_at,
    occurs_in, starts_with, string_of, sub_chars, trim, trim_end, trim_start, trimmed,
};

verus! {

/// A remote tarball: an `http` or `https` URL of a `.tgz` or `.tar.gz` file.
pub open spec fn is_remote_tarball(s: Seq<char>) -> bool {
    (starts_with(s, "https://"@) || starts_with(s, "http://"@)) && (ends_with(s, ".tgz"@)
        || ends_with(s, ".tar.gz"@))
}

/// A git dependency, which is not supported yet.
pub open spec fn looks_like_git(s: Seq<char>) -> bool {
    ||| starts_with(s, "git+"@)
    ||| starts_with(s, "git://"@)
    ||| starts_with(s, "github:"@)
    ||| starts_with(s, "gitlab:"@)
    ||| starts_with(s, "bitbucket:"@)
}

/// A path, link, protocol or other form that is not supported.
pub open spec fn looks_unsupported(s: Seq<char>) -> bool {
    ||| starts_with(s, "./"@)
    ||| starts_with(s, "../"@)
    ||| starts_with(s, "/"@)
    ||| starts_with(s, "link:"@)
    ||| starts_with(s, "portal:"@)
    ||| starts_with(s, "catalog:"@)
    ||| starts_with(s, "patch:"@)
    ||| occurs_in(s, "://"@)
    ||| s.contains('/')
    ||| s.contains(':')
}

/// ASCII letters.
pub open spec fn is_ascii_alpha(c: char) -> bool {
    ('a' <= c && c <= 'z') || ('A' <= c && c <= 'Z')
}

/// A dist-tag such as `latest` or `beta.1`: a letter, then letters, digits, `-`, `_` or `.`.
pub open spec fn is_dist_tag_text(r: Seq<char>) -> bool {
    &&& r.len() > 0
    &&& is_ascii_alpha(r[0])
    &&& forall|i: int|
        0 <= i < r.len() ==> is_ascii_alnum(#[trigger] r[i]) || r[i] == '-' || r[i] == '_' || r[i]
            == '.'
}

/// An ASCII letter, spelled out by ranges.
pub open spec fn dist_tag_start(c: char) -> bool {
    (0x41 <= c as int && c as int <= 0x5A) || (0x61 <= c as int && c as int <= 0x7A)
}

/// An ASCII letter or digit, `-`, `_` or `.`, spelled out by ranges.
pub open spec fn dist_tag_body(c: char) -> bool {
    ||| 0x30 <= c as int && c as int <= 0x39
    ||| dist_tag_start(c)
    ||| c == '-'
    ||| c == '_'
    ||| c == '.'
}

/// A requirement that starts with an ASCII letter and holds only ASCII letters, digits, `-`,
/// `_` and `.` is read as a dist-tag of the named package; any other non-empty requirement
/// is read as a version range.
pub proof fn lemma_dist_tag_reading(
    section: DependencySection,
    alias: Seq<char>,
    raw: Seq<char>,
    rs: Seq<char>,
)
    requires
        name_error(alias) is None,
        rs.len() > 0,
    ensures
        (dist_tag_start(rs[0]) && forall|i: int|
            0 <= i < rs.len() ==> dist_tag_body(#[trigger] rs[i])) ==> registry_result(section, alias, raw, rs, RegistrySpecMode::DependencyValue) == Ok::<
            DependencySpecModel,
            ManifestErrorModel,
        >(DependencySpecModel::DistTag { target: alias, tag: rs }),
        !(dist_tag_start(rs[0]) && forall|i: int|
            0 <= i < rs.len() ==> dist_tag_body(#[trigger] rs[i])) ==> registry_result(section, alias, raw, rs, RegistrySpecMode::DependencyValue) == Ok::<
            DependencySpecModel,
            ManifestErrorModel,
        >(DependencySpecModel::RegistryRange { target: alias, range: rs }),
{
    lemma_dist_tag_text_chars(rs);
}

proof fn lemma_not_within(s: Seq<char>, p: Seq<char>, j: int)
    requires
        0 <= j < p.len(),
        !s.contains(p[j]),
    ensures
        !starts_with(s, p),
        !occurs_in(s, p),
{
    if starts_with(s, p) {
        assert(s.take(p.len() as int)[j] == s[j]);
        assert(s.contains(s[j]));
    }
    if occurs_in(s, p) {
        let i = choose|i: int| 0 <= i <= s.len() - p.len() && #[trigger] occurs_at(s, p, i);
        assert(s.subrange(i, i + p.len())[j] == s[i + j]);
        assert(s.contains(s[i + j]));
    }
}

/// A dependency value that starts with an ASCII letter and holds only ASCII letters, digits,
/// `-`, `_` and `.` (such as `latest`, `next-5` or `beta.1`) reads as a dist-tag of the
/// dependency's own name, in every section.
pub proof fn lemma_plain_value_is_dist_tag(
    section: DependencySection,
    alias: Seq<char>,
    raw: Seq<char>,
)
    requires
        name_error(alias) is None,
        raw.len() > 0,
        dist_tag_start(raw[0]),
        forall|i: int| 0 <= i < raw.len() ==> dist_tag_body(#[trigger] raw[i]),
    ensures
        dependency_spec_result(section, alias, raw) == Ok::<
            DependencySpecModel,
            ManifestErrorModel,
        >(DependencySpecModel::DistTag { target: alias, tag: raw }),
{
    assert(trim_start(raw) == raw);
    assert(trim_end(raw) == raw);
    assert(trim(raw) == raw);
    assert(!raw.contains(':') && !raw.contains('/') && !raw.contains('+')) by {
        if raw.contains(':') {
            let i = choose|i: int| 0 <= i < raw.len() && raw[i] == ':';
            assert(dist_tag_body(raw[i]));
        }
        if raw.contains('/') {
            let i = choose|i: int| 0 <= i < raw.len() && raw[i] == '/';
            assert(dist_tag_body(raw[i]));
        }
        if raw.contains('+') {
            let i = choose|i: int| 0 <= i < raw.len() && raw[i] == '+';
            assert(dist_tag_body(raw[i]));
        }
    }
    reveal_strlit("workspace:");
    reveal_strlit("file:");
    reveal_strlit("npm:");
    reveal_strlit("https://");
    reveal_strlit("http://");
    reveal_strlit("git+");
    reveal_strlit("git://");
    reveal_strlit("github:");
    reveal_strlit("gitlab:");
    reveal_strlit("bitbucket:");
    reveal_strlit("./");
    reveal_strlit("../");
    reveal_strlit("/");
    reveal_strlit("link:");
    reveal_strlit("portal:");
    reveal_strlit("catalog:");
    reveal_strlit("patch:");
    reveal_strlit("://");
    lemma_not_within(raw, "workspace:"@, 9);
    lemma_not_within(raw, "file:"@, 4);
    lemma_not_within(raw, "npm:"@, 3);
    lemma_not_within(raw, "https://"@, 5);
    lemma_not_within(raw, "http://"@, 4);
    lemma_not_within(raw, "git+"@, 3);
    lemma_not_within(raw, "git://"@, 3);
    lemma_not_within(raw, "github:"@, 6);
    lemma_not_within(raw, "gitlab:"@, 6);
    lemma_not_within(raw, "bitbucket:"@, 9);
    lemma_not_within(raw, "./"@, 1);
    lemma_not_within(raw, "../"@, 2);
    lemma_not_within(raw, "/"@, 0);
    lemma_not_within(raw, "link:"@, 4);
    lemma_not_within(raw, "portal:"@, 6);
    lemma_not_within(raw, "catalog:"@, 7);
    lemma_not_within(raw, "patch:"@, 5);
    lemma_not_within(raw, "://"@, 0);
    lemma_dist_tag_text_chars(raw);
}

/// The dist-tag test, stated over the characters.
pub proof fn lemma_dist_tag_text_chars(r: Seq<char>)
    ensures
        is_dist_tag_text(r) == (r.len() > 0 && dist_tag_start(r[0]) && forall|i: int|
            0 <= i < r.len() ==> dist_tag_body(#[trigger] r[i])),
{
    if r.len() > 0 && dist_tag_start(r[0]) && forall|i: int|
        0 <= i < r.len() ==> dist_tag_body(#[trigger] r[i]) {
        assert forall|i: int| 0 <= i < r.len() implies is_ascii_alnum(#[trigger] r[i]) || r[i]
            == '-' || r[i] == '_' || r[i] == '.' by {
            assert(dist_tag_body(r[i]));
        }
    }
    if is_dist_tag_text(r) {
        assert forall|i: int| 0 <= i < r.len() implies dist_tag_body(#[trigger] r[i]) by {
            assert(is_ascii_alnum(r[i]) || r[i] == '-' || r[i] == '_' || r[i] == '.');
        }
    }
}

/// The index of the last `@` after the first character of `s`, or 0 when there is none.
pub open spec fn last_inner_at(s: Seq<char>) -> int
    decreases s.len(),
{
    if s.len() <= 1 {
        0
    } else if s.last() == '@' {
        s.len() - 1
    } else {
        last_inner_at(s.drop_last())
    }
}

/// How a registry value names its package: as the dependency's own name, or after
/// `npm:`, as `target@requirement`.
#[derive(Debug, Clone, Copy, PartialEq, Eq)]
pub enum RegistrySpecMode {
    DependencyValue,
    NpmAlias,
}

/// The package and the requirement that a registry value names: for an `npm:` alias,
/// `target@requirement` (the requirement is `*` when no `@` follows the first character);
/// otherwise the dependency's own alias and the whole value.
pub open spec fn split_registry_spec(alias: Seq<char>, rs: Seq<char>, mode: RegistrySpecMode) -> (
    Seq<char>,
    Seq<char>,
) {
    if mode == RegistrySpecMode::NpmAlias {
        let k = last_inner_at(rs);
        if k > 0 {
            (rs.take(k), rs.skip(k + 1))
        } else {
            (rs, "*"@)
        }
    } else {
        (alias, rs)
    }
}

/// The target named by a registry value `rs`: a dist-tag or a version range.
pub open spec fn registry_result(
    section: DependencySection,
    alias: Seq<char>,
    raw: Seq<char>,
    rs: Seq<char>,
    mode: RegistrySpecMode,
) -> Result<DependencySpecModel, ManifestErrorModel> {
    let (target, req) = split_registry_spec(alias, rs, mode);
    match name_error(target) {
        Some(e) => Err(
            ManifestErrorModel::DependencyTargetName {
                section: section.name_of(),
                alias,
                target,
                source: e,
            },
        ),
        None => if is_dist_tag_text(req) {
            Ok(DependencySpecModel::DistTag { target, tag: req })
        } else if req.len() == 0 {
            Err(
                ManifestErrorModel::DependencySpec {
                    section: section.name_of(),
                    alias,
                    spec: raw,
                    source: NonEmptyStringError::Empty,
                },
            )
        } else {
            Ok(DependencySpecModel::RegistryRange { target, range: req })
        },
    }
}

/// What a dependency value `raw` of `section`, under dependency name `alias`, means.
pub open spec fn dependency_spec_result(section: DependencySection, alias: Seq<char>, raw: Seq<char>) -> Result<
    DependencySpecModel,
    ManifestErrorModel,
> {
    let spec = trim(raw);
    let unsupported = ManifestErrorModel::UnsupportedDependencySpec {
        section: section.name_of(),
        alias,
        spec: raw,
    };
    if spec.len() == 0 {
        Err(
            ManifestErrorModel::DependencySpec {
                section: section.name_of(),
                alias,
                spec: raw,
                source: NonEmptyStringError::Empty,
            },
        )
    } else if starts_with(spec, "workspace:"@) {
        Ok(workspace_result(spec.skip("workspace:"@.len() as int)))
    } else if starts_with(spec, "file:"@) {
        let p = spec.skip("file:"@.len() as int);
        if trim(p).len() == 0 {
            Err(unsupported)
        } else {
            Ok(DependencySpecModel::Path { path: p })
        }
    } else if starts_with(spec, "npm:"@) {
        registry_result(
            section,
            alias,
            raw,
            spec.skip("npm:"@.len() as int),
            RegistrySpecMode::NpmAlias,
        )
    } else if is_remote_tarball(spec) {
        Ok(DependencySpecModel::Tarball { url: spec, integrity: None })
    } else if looks_like_git(spec) || looks_unsupported(spec) {
        Err(unsupported)
    } else {
        registry_result(section, alias, raw, spec, RegistrySpecMode::DependencyValue)
    }
}

/// The model of a parse outcome.
pub open spec fn spec_outcome(r: Result<DependencySpec, ManifestError>) -> Result<
    DependencySpecModel,
    ManifestErrorModel,
> {
    match r {
        Ok(s) => Ok(s@),
        Err(e) => Err(e@),
    }
}

fn is_remote_tarball_text(s: &[char]) -> (b: bool)
    ensures
        b == is_remote_tarball(s@),
{
    (has_prefix(s, "https://") || has_prefix(s, "http://")) && (has_suffix(s, ".tgz")
        || has_suffix(s, ".tar.gz"))
}

fn looks_like_git_text(s: &[char]) -> (b: bool)
    ensures
        b == looks_like_git(s@),
{
    has_prefix(s, "git+") || has_prefix(s, "git://") || has_prefix(s, "github:") || has_prefix(
        s,
        "gitlab:",
    ) || has_prefix(s, "bitbucket:")
}

fn looks_unsupported_text(s: &[char]) -> (b: bool)
    ensures
        b == looks_unsupported(s@),
{
    has_prefix(s, "./") || has_prefix(s, "../") || has_prefix(s, "/") || has_prefix(s, "link:")
        || has_prefix(s, "portal:") || has_prefix(s, "catalog:") || has_prefix(s, "patch:")
        || has_infix(s, "://") || contains_char(s, '/') || contains_char(s, ':')
}

fn dist_tag_char(c: char) -> (b: bool)
    ensures
        b == (is_ascii_alnum(c) || c == '-' || c == '_' || c == '.'),
{
    ('0' <= c && c <= '9') || ('a' <= c && c <= 'z') || ('A' <= c && c <= 'Z') || c == '-' || c
        == '_' || c == '.'
}

fn is_dist_tag(r: &[char]) -> (b: bool)
    ensures
        b == is_dist_tag_text(r@),
        b == (r@.len() > 0 && dist_tag_start(r@[0]) && forall|i: int|
            0 <= i < r@.len() ==> dist_tag_body(#[trigger] r@[i])),
{
    proof {
        lemma_dist_tag_text_chars(r@);
    }
    if r.len() == 0 {
        return false;
    }
    let first = r[0];
    if !(('a' <= first && first <= 'z') || ('A' <= first && first <= 'Z')) {
        return false;
    }
    let mut i: usize = 0;
    while i < r.len()
        invariant
            i <= r@.len(),
            forall|j: int|
                0 <= j < i ==> is_ascii_alnum(#[trigger] r@[j]) || r@[j] == '-' || r@[j] == '_'
                    || r@[j] == '.',
        decreases r@.len() - i,
    {
        if !dist_tag_char(r[i]) {
            return false;
        }
        i = i + 1;
    }
    true
}

proof fn lemma_last_inner_at(s: Seq<char>)
    ensures
        0 <= last_inner_at(s),
        last_inner_at(s) > 0 ==> last_inner_at(s) < s.len() && s[last_inner_at(s)] == '@',
    decreases s.len(),
{
    if s.len() > 1 && s.last() != '@' {
        lemma_last_inner_at(s.drop_last());
    }
}

fn last_inner_at_index(s: &[char]) -> (k: usize)
    ensures
        k == last_inner_at(s@),
{
    let mut n: usize = s.len();
    assert(s@.take(n as int) == s@);
    while n > 1 && s[n - 1] != '@'
        invariant
            n <= s@.len(),
            last_inner_at(s@) == last_inner_at(s@.take(n as int)),
        decreases n,
    {
        assert(s@.take(n as int).drop_last() == s@.take(n - 1));
        n = n - 1;
    }
    if n > 1 {
        assert(s@.take(n as int).last() == s@[n - 1]);
        n - 1
    } else {
        0
    }
}

fn invalid_spec(section: DependencySection, alias: &PackageName, raw: &str) -> (e: ManifestError)
    ensures
        e@ == (ManifestErrorModel::DependencySpec {
            section: section.name_of(),
            alias: alias@,
            spec: raw@,
            source: NonEmptyStringError::Empty,
        }),
{
    ManifestError::DependencySpec {
        section: section.as_str(),
        alias: alias.as_str().to_owned(),
        spec: raw.to_owned(),
        source: NonEmptyStringError::Empty,
    }
}

fn unsupported_spec(section: DependencySection, alias: &PackageName, raw: &str) -> (e: ManifestError)
    ensures
        e@ == (ManifestErrorModel::UnsupportedDependencySpec {
            section: section.name_of(),
            alias: alias@,
            spec: raw@,
        }),
{
    ManifestError::UnsupportedDependencySpec {
        section: section.as_str(),
        alias: alias.as_str().to_owned(),
        spec: raw.to_owned(),
    }
}

fn split_target_and_requirement(alias: &PackageName, rs: &Vec<char>, mode: RegistrySpecMode) -> (r: (
    Vec<char>,
    Vec<char>,
))
    ensures
        (r.0@, r.1@) == split_registry_spec(alias@, rs@, mode),
{
    proof {
        lemma_last_inner_at(rs@);
    }
    assert(rs@.subrange(0, rs@.len() as int) == rs@);
    let n = rs.len();
    match mode {
        RegistrySpecMode::NpmAlias => {
            let k = last_inner_at_index(rs.as_slice());
            if k > 0 {
                assert(k < n);
                (sub_chars(rs.as_slice(), 0, k), sub_chars(rs.as_slice(), k + 1, n))
            } else {
                (sub_chars(rs.as_slice(), 0, n), chars_of("*"))
            }
        },
        RegistrySpecMode::DependencyValue => (chars_of(alias.as_str()), sub_chars(rs.as_slice(), 0, n)),
    }
}

fn parse_registry_spec(
    section: DependencySection,
    alias: &PackageName,
    raw: &str,
    rs: &Vec<char>,
    mode: RegistrySpecMode,
) -> (r: Result<DependencySpec, ManifestError>)
    ensures
        spec_outcome(r) == registry_result(section, alias@, raw@, rs@, mode),
{
    let (target, req) = split_target_and_requirement(alias, rs, mode);
    let target_text = string_of(target.as_slice());
    let name = match PackageName::new(target_text.as_str()) {
        Ok(name) => name,
        Err(source) => {
            return Err(
                ManifestError::DependencyTargetName {
                    section: section.as_str(),
                    alias: alias.as_str().to_owned(),
                    target: target_text,
                    source,
                },
            );
        },
    };
    let req_text = string_of(req.as_slice());
    if is_dist_tag(req.as_slice()) {
        return match DistTag::new(req_text.as_str()) {
            Ok(tag) => Ok(DependencySpec::DistTag { target: name, tag }),
            Err(_) => Err(invalid_spec(section, alias, raw)),
        };
    }
    match VersionRange::new(req_text.as_str()) {
        Ok(range) => Ok(DependencySpec::RegistryRange { target: name, range }),
        Err(_) => Err(invalid_spec(section, alias, raw)),
    }
}

/// The target of a `workspace:` value whose remainder is `w`: any version for an empty
/// remainder or `*`, else the range it gives.
pub open spec fn workspace_result(w: Seq<char>) -> DependencySpecModel {
    if w.len() == 0 || w == "*"@ {
        DependencySpecModel::Workspace { range: None }
    } else {
        DependencySpecModel::Workspace { range: Some(w) }
    }
}

fn parse_workspace_spec(
    section: DependencySection,
    alias: &PackageName,
    raw: &str,
    w: &Vec<char>,
) -> (r: Result<DependencySpec, ManifestError>)
    ensures
        spec_outcome(r) == Ok::<DependencySpecModel, ManifestErrorModel>(workspace_result(w@)),
{
    let star = chars_of("*");
    if w.len() == 0 || compare_text(w.as_slice(), star.as_slice()) == 0 {
        return Ok(DependencySpec::Workspace(WorkspaceSpec { range: None }));
    }
    let text = string_of(w.as_slice());
    match VersionRange::new(text.as_str()) {
        Ok(range) => Ok(DependencySpec::Workspace(WorkspaceSpec { range: Some(range) })),
        Err(_) => Err(invalid_spec(section, alias, raw)),
    }
}

/// Reads the dependency value `raw_spec` found under `alias` in `section`.
pub fn parse_dependency_spec(section: DependencySection, alias: &PackageName, raw_spec: &str) -> (r:
    Result<DependencySpec, ManifestError>)
    ensures
        spec_outcome(r) == dependency_spec_result(section, alias@, raw_spec@),
{
    let raw = chars_of(raw_spec);
    let spec = trimmed(raw.as_slice());
    if spec.len() == 0 {
        return Err(invalid_spec(section, alias, raw_spec));
    }
    if has_prefix(spec.as_slice(), "workspace:") {
        let skip = chars_of("workspace:").len();
        let w = sub_chars(spec.as_slice(), skip, spec.len());
        assert(w@ == spec@.skip("workspace:"@.len() as int));
        return parse_workspace_spec(section, alias, raw_spec, &w);
    }
    if has_prefix(spec.as_slice(), "file:") {
        let skip = chars_of("file:").len();
        let p = sub_chars(spec.as_slice(), skip, spec.len());
        assert(p@ == spec@.skip("file:"@.len() as int));
        let p_trimmed = trimmed(p.as_slice());
        if p_trimmed.len() == 0 {
            return Err(unsupported_spec(section, alias, raw_spec));
        }
        return Ok(DependencySpec::Path(PathSpec { path: string_of(p.as_slice()) }));
    }
    if has_prefix(spec.as_slice(), "npm:") {
        let skip = chars_of("npm:").len();
        let rest = sub_chars(spec.as_slice(), skip, spec.len());
        assert(rest@ == spec@.skip("npm:"@.len() as int));
        return parse_registry_spec(section, alias, raw_spec, &rest, RegistrySpecMode::NpmAlias);
    }
    if is_remote_tarball_text(spec.as_slice()) {
        let text = string_of(spec.as_slice());
        return match SourceUrl::new(text.as_str()) {
            Ok(url) => Ok(DependencySpec::Tarball(TarballSpec { url, integrity: None })),
            Err(source) => Err(
                ManifestError::DependencySource {
                    section: section.as_str(),
                    alias: alias.as_str().to_owned(),
                    spec: raw_spec.to_owned(),
                    source,
                },
            ),
        };
    }
    if looks_like_git_text(spec.as_slice()) || looks_unsupported_text(spec.as_slice()) {
        return Err(unsupported_spec(section, alias, raw_spec));
    }
    parse_registry_spec(section, alias, raw_spec, &spec, RegistrySpecMode::DependencyValue)
}

} // verus!
