//! Why a `package.json` manifest could not be read into the dependency model.
use vstd::prelude::*;

use crate::dependency::NonEmptyStringError;
use crate::name::PackageNameError;
use crate::source::SourceTextError;
use crate::version::PackageVersionError;

verus! {

/// `serde_json::Error`, the error of a `package.json` text that is not a JSON document
/// of the expected shape; opaque to proofs.
#[verifier::external_type_specification]
#[verifier::external_body]
pub struct ExJsonError(serde_json::Error);

#[derive(Debug)]
pub enum ManifestError {
    /// The text is not a `package.json` document.
    Json(serde_json::Error),
    PackageName { value: String, source: PackageNameError },
    PackageVersion { value: String, source: PackageVersionError },
    DependencyName { section: &'static str, alias: String, source: PackageNameError },
    DependencyTargetName {
        section: &'static str,
        alias: String,
        target: String,
        source: PackageNameError,
    },
    DependencySpec {
        section: &'static str,
        alias: String,
        spec: String,
        source: NonEmptyStringError,
    },
    DependencySource { section: &'static str, alias: String, spec: String, source: SourceTextError },
    UnsupportedDependencySpec { section: &'static str, alias: String, spec: String },
}

/// The model of a manifest error: the variant and its texts.
pub enum ManifestErrorModel {
    Json,
    PackageName { value: Seq<char>, source: PackageNameError },
    PackageVersion { value: Seq<char>, source: PackageVersionError },
    DependencyName { section: Seq<char>, alias: Seq<char>, source: PackageNameError },
    DependencyTargetName {
        section: Seq<char>,
        alias: Seq<char>,
        target: Seq<char>,
        source: PackageNameError,
    },
    DependencySpec {
        section: Seq<char>,
        alias: Seq<char>,
        spec: Seq<char>,
        source: NonEmptyStringError,
    },
    DependencySource {
        section: Seq<char>,
        alias: Seq<char>,
        spec: Seq<char>,
        source: SourceTextError,
    },
    UnsupportedDependencySpec { section: Seq<char>, alias: Seq<char>, spec: Seq<char> },
}

impl View for ManifestError {
    type V = ManifestErrorModel;

    open spec fn view(&self) -> ManifestErrorModel {
        match self {
            ManifestError::Json(_) => ManifestErrorModel::Json,
            ManifestError::PackageName { value, source } => ManifestErrorModel::PackageName {
                value: value@,
                source: *source,
            },
            ManifestError::PackageVersion { value, source } => ManifestErrorModel::PackageVersion {
                value: value@,
                source: *source,
            },
            ManifestError::DependencyName { section, alias, source } => ManifestErrorModel::DependencyName {
                section: section@,
                alias: alias@,
                source: *source,
            },
            ManifestError::DependencyTargetName { section, alias, target, source } => ManifestErrorModel::DependencyTargetName {
                section: section@,
                alias: alias@,
                target: target@,
                source: *source,
            },
            ManifestError::DependencySpec { section, alias, spec, source } => ManifestErrorModel::DependencySpec {
                section: section@,
                alias: alias@,
                spec: spec@,
                source: *source,
            },
            ManifestError::DependencySource { section, alias, spec, source } => ManifestErrorModel::DependencySource {
                section: section@,
                alias: alias@,
                spec: spec@,
                source: *source,
            },
            ManifestError::UnsupportedDependencySpec { section, alias, spec } => ManifestErrorModel::UnsupportedDependencySpec {
                section: section@,
                alias: alias@,
                spec: spec@,
            },
        }
    }
}

} // verus!
