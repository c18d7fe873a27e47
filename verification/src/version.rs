//! Resolved package versions.
use vstd::prelude::*;

use crate::same::{same_text, SameAs};
use crate::text::{any_white_space, chars_of, has_white_space};

verus! {

#[derive(Debug, Clone, Copy, PartialEq, Eq)]
pub enum PackageVersionError {
    Empty,
    Whitespace,
}

/// Why `v` is not a version text, if it is not one.
pub open spec fn version_error(v: Seq<char>) -> Option<PackageVersionError> {
    if v.len() == 0 {
        Some(PackageVersionError::Empty)
    } else if has_white_space(v) {
        Some(PackageVersionError::Whitespace)
    } else {
        None
    }
}

/// A resolved package version.
///
/// This stores the package manager's version text as it is; npm-compatible
/// parsing belongs elsewhere, while the core model only needs a stable value.
#[derive(Debug, PartialEq, Eq, Hash)]
pub struct PackageVersion(String);

impl View for PackageVersion {
    type V = Seq<char>;

    closed spec fn view(&self) -> Seq<char> {
        self.0@
    }
}

impl DeepView for PackageVersion {
    type V = Seq<char>;

    open spec fn deep_view(&self) -> Seq<char> {
        self@
    }
}

impl PackageVersion {
    #[verifier::type_invariant]
    closed spec fn valid(self) -> bool {
        version_error(self.0@) is None
    }

    pub fn new(value: &str) -> (r: Result<Self, PackageVersionError>)
        ensures
            match r {
                Ok(version) => version_error(value@) is None && version@ == value@,
                Err(e) => version_error(value@) == Some(e),
            },
    {
        let v = chars_of(value);
        if v.len() == 0 {
            return Err(PackageVersionError::Empty);
        }
        if any_white_space(v.as_slice()) {
            return Err(PackageVersionError::Whitespace);
        }
        Ok(PackageVersion(value.to_owned()))
    }

    /// The version text; it is never empty and holds no white space.
    pub fn as_str(&self) -> (s: &str)
        ensures
            s@ == self@,
            version_error(self@) is None,
    {
        proof {
            use_type_invariant(self);
        }
        self.0.as_str()
    }
}

impl SameAs for PackageVersion {
    fn same_as(&self, other: &Self) -> (b: bool) {
        same_text(self.as_str(), other.as_str())
    }
}

impl Clone for PackageVersion {
    fn clone(&self) -> (r: Self)
        ensures
            r@ == self@,
    {
        proof {
            use_type_invariant(self);
        }
        PackageVersion(self.0.clone())
    }
}

} // verus!
