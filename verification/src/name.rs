//! Package names as they appear in manifests and dependency edges.
use vstd::prelude::*;

use crate::same::{same_text, SameAs};
use crate::text::{
    any_white_space, chars_of, contains_char, find_char, has_white_space, lemma_find_char,
    position_of, sub_chars, text_with_char,
};

verus! {

/// Why a text is not a package name.
#[derive(Debug, Clone, Copy, PartialEq, Eq)]
pub enum PackageNameError {
    Empty,
    InvalidStart(char),
    Whitespace,
    InvalidScopedName,
    InvalidCharacter(char),
    Reserved,
}

/// ASCII letters and digits.
pub open spec fn is_ascii_alnum(c: char) -> bool {
    ('0' <= c && c <= '9') || ('a' <= c && c <= 'z') || ('A' <= c && c <= 'Z')
}

/// Characters allowed in either part of a package name.
pub open spec fn is_name_char(c: char) -> bool {
    is_ascii_alnum(c) || c == '-' || c == '_' || c == '.' || c == '!' || c == '~' || c == '*'
        || c == '\'' || c == '(' || c == ')'
}

/// The first character of `s` that is not allowed in a name part.
pub open spec fn first_invalid(s: Seq<char>) -> Option<char>
    decreases s.len(),
{
    if s.len() == 0 {
        None
    } else if !is_name_char(s[0]) {
        Some(s[0])
    } else {
        first_invalid(s.drop_first())
    }
}

/// The code of `c` after ASCII lower-casing.
pub open spec fn ascii_lower(c: char) -> int {
    if 'A' <= c && c <= 'Z' {
        c as int + 32
    } else {
        c as int
    }
}

/// `a` and `b` are equal when ASCII letters are compared without case.
pub open spec fn eq_ignore_ascii_case(a: Seq<char>, b: Seq<char>) -> bool {
    a.len() == b.len() && forall|i: int| 0 <= i < a.len() ==> ascii_lower(a[i]) == ascii_lower(b[i])
}

/// The names npm reserves, in any ASCII case.
pub open spec fn is_reserved_name(v: Seq<char>) -> bool {
    eq_ignore_ascii_case(v, "node_modules"@) || eq_ignore_ascii_case(v, "favicon.ico"@)
}

/// What is wrong with a name part (the scope, or the name proper).
pub open spec fn part_error(s: Seq<char>) -> Option<PackageNameError> {
    match first_invalid(s) {
        Some(c) => Some(PackageNameError::InvalidCharacter(c)),
        None => None,
    }
}

/// What is wrong with `@scope/name`, given the text after the `@`.
pub open spec fn scoped_error(rest: Seq<char>) -> Option<PackageNameError> {
    let k = find_char(rest, '/');
    if k == rest.len() {
        Some(PackageNameError::InvalidScopedName)
    } else {
        let scope = rest.take(k);
        let name = rest.skip(k + 1);
        if scope.len() == 0 || name.len() == 0 || name.contains('/') || name[0] == '.' {
            Some(PackageNameError::InvalidScopedName)
        } else if part_error(scope) is Some {
            part_error(scope)
        } else {
            part_error(name)
        }
    }
}

/// The first rule that `v` breaks as a package name, in the order the rules are checked;
/// `None` for a valid name.
pub open spec fn name_error(v: Seq<char>) -> Option<PackageNameError> {
    if v.len() == 0 {
        Some(PackageNameError::Empty)
    } else if v[0] == '.' || v[0] == '-' || v[0] == '_' {
        Some(PackageNameError::InvalidStart(v[0]))
    } else if has_white_space(v) {
        Some(PackageNameError::Whitespace)
    } else if is_reserved_name(v) {
        Some(PackageNameError::Reserved)
    } else if v[0] == '@' {
        scoped_error(v.drop_first())
    } else {
        part_error(v)
    }
}

/// `v` is a valid package name.
pub open spec fn is_valid_name(v: Seq<char>) -> bool {
    name_error(v) is None
}

proof fn lemma_first_invalid_none(s: Seq<char>, i: int)
    requires
        first_invalid(s) is None,
        0 <= i < s.len(),
    ensures
        is_name_char(s[i]),
    decreases s.len(),
{
    if i > 0 {
        lemma_first_invalid_none(s.drop_first(), i - 1);
        assert(s.drop_first()[i - 1] == s[i]);
    }
}

/// In a valid name each character is an ASCII letter or digit or one of `- _ . ! ~ * ' ( )`;
/// the only exceptions are the `@` that opens a scoped name and the first `/`, which closes
/// its scope. So the scope of a scoped name is held to the same characters as the rest.
pub proof fn lemma_valid_name_characters(v: Seq<char>, i: int)
    requires
        is_valid_name(v),
        0 <= i < v.len(),
    ensures
        ({
            ||| ('0' <= v[i] && v[i] <= '9') || ('a' <= v[i] && v[i] <= 'z') || ('A' <= v[i]
                && v[i] <= 'Z')
            ||| v[i] == '-' || v[i] == '_' || v[i] == '.' || v[i] == '!' || v[i] == '~' || v[i]
                == '*' || v[i] == '\'' || v[i] == '(' || v[i] == ')'
            ||| i == 0 && v[i] == '@'
            ||| 0 < i < v.len() - 1 && v[0] == '@' && v[i] == '/' && (forall|j: int|
                0 < j < v.len() && j != i ==> v[j] != '/')
        }),
{
    if v[0] == '@' {
        if i > 0 {
            let rest = v.drop_first();
            lemma_find_char(rest, '/');
            let k = find_char(rest, '/');
            let scope = rest.take(k);
            let name = rest.skip(k + 1);
            assert(k < rest.len());
            assert(first_invalid(scope) is None);
            assert(first_invalid(name) is None);
            if i - 1 < k {
                lemma_first_invalid_none(scope, i - 1);
                assert(scope[i - 1] == v[i]);
            } else if i - 1 == k {
                assert forall|j: int| 0 < j < v.len() && j != i implies v[j] != '/' by {
                    if j < i {
                        assert(rest[j - 1] == v[j]);
                    } else {
                        assert(name[j - i - 1] == v[j]);
                        if v[j] == '/' {
                            assert(name.contains('/'));
                        }
                    }
                }
                assert(name.len() > 0);
            } else {
                lemma_first_invalid_none(name, i - k - 2);
                assert(name[i - k - 2] == v[i]);
            }
        }
    } else {
        lemma_first_invalid_none(v, i);
    }
}

/// A JavaScript package name as it appears in manifests and dependency edges.
#[derive(Debug, PartialEq, Eq, PartialOrd, Ord, Hash)]
pub struct PackageName(String);

impl View for PackageName {
    type V = Seq<char>;

    closed spec fn view(&self) -> Seq<char> {
        self.0@
    }
}

impl DeepView for PackageName {
    type V = Seq<char>;

    open spec fn deep_view(&self) -> Seq<char> {
        self@
    }
}

impl PackageName {
    #[verifier::type_invariant]
    closed spec fn valid(self) -> bool {
        is_valid_name(self.0@)
    }

    pub fn new(value: &str) -> (r: Result<Self, PackageNameError>)
        ensures
            match r {
                Ok(name) => name_error(value@) is None && name@ == value@,
                Err(e) => name_error(value@) == Some(e),
            },
    {
        let v = chars_of(value);
        match validate_package_name(&v) {
            Some(e) => Err(e),
            None => Ok(PackageName(value.to_owned())),
        }
    }

    /// The name's text; every package name is a valid one.
    pub fn as_str(&self) -> (s: &str)
        ensures
            s@ == self@,
            is_valid_name(self@),
    {
        proof {
            use_type_invariant(self);
        }
        self.0.as_str()
    }
}

impl SameAs for PackageName {
    fn same_as(&self, other: &Self) -> (b: bool) {
        same_text(self.as_str(), other.as_str())
    }
}

impl Clone for PackageName {
    fn clone(&self) -> (r: Self)
        ensures
            r@ == self@,
    {
        proof {
            use_type_invariant(self);
        }
        PackageName(self.0.clone())
    }
}

fn is_name_character(c: char) -> (b: bool)
    ensures
        b == is_name_char(c),
{
    ('0' <= c && c <= '9') || ('a' <= c && c <= 'z') || ('A' <= c && c <= 'Z') || c == '-' || c
        == '_' || c == '.' || c == '!' || c == '~' || c == '*' || c == '\'' || c == '(' || c == ')'
}

fn validate_name_part(s: &[char]) -> (r: Option<PackageNameError>)
    ensures
        r == part_error(s@),
{
    let mut i: usize = 0;
    assert(s@.skip(0) == s@);
    while i < s.len()
        invariant
            i <= s@.len(),
            first_invalid(s@) == first_invalid(s@.skip(i as int)),
        decreases s@.len() - i,
    {
        assert(s@.skip(i as int).drop_first() == s@.skip(i + 1));
        if !is_name_character(s[i]) {
            return Some(PackageNameError::InvalidCharacter(s[i]));
        }
        i = i + 1;
    }
    assert(s@.skip(i as int).len() == 0);
    None
}

fn lower_code(c: char) -> (x: u32)
    ensures
        x == ascii_lower(c),
{
    if 'A' <= c && c <= 'Z' {
        c as u32 + 32
    } else {
        c as u32
    }
}

fn equals_ignoring_ascii_case(a: &[char], b: &str) -> (r: bool)
    ensures
        r == eq_ignore_ascii_case(a@, b@),
{
    let bv = chars_of(b);
    if a.len() != bv.len() {
        return false;
    }
    let mut i: usize = 0;
    while i < a.len()
        invariant
            a@.len() == bv@.len(),
            bv@ == b@,
            i <= a@.len(),
            forall|j: int| 0 <= j < i ==> ascii_lower(a@[j]) == ascii_lower(bv@[j]),
        decreases a@.len() - i,
    {
        if lower_code(a[i]) != lower_code(bv[i]) {
            return false;
        }
        i = i + 1;
    }
    true
}

fn validate_package_name(v: &Vec<char>) -> (r: Option<PackageNameError>)
    ensures
        r == name_error(v@),
{
    if v.len() == 0 {
        return Some(PackageNameError::Empty);
    }
    let first = v[0];
    if first == '.' || first == '-' || first == '_' {
        return Some(PackageNameError::InvalidStart(first));
    }
    if any_white_space(v.as_slice()) {
        return Some(PackageNameError::Whitespace);
    }
    if equals_ignoring_ascii_case(v.as_slice(), "node_modules") || equals_ignoring_ascii_case(
        v.as_slice(),
        "favicon.ico",
    ) {
        return Some(PackageNameError::Reserved);
    }
    if first == '@' {
        let rest = sub_chars(v.as_slice(), 1, v.len());
        assert(rest@ == v@.drop_first());
        let k = position_of(rest.as_slice(), '/');
        proof {
            lemma_find_char(rest@, '/');
        }
        if k == rest.len() {
            return Some(PackageNameError::InvalidScopedName);
        }
        let scope = sub_chars(rest.as_slice(), 0, k);
        let name = sub_chars(rest.as_slice(), k + 1, rest.len());
        assert(scope@ == rest@.take(k as int));
        assert(name@ == rest@.skip(k + 1));
        if scope.len() == 0 || name.len() == 0 || contains_char(name.as_slice(), '/') || name[0]
            == '.' {
            return Some(PackageNameError::InvalidScopedName);
        }
        let scope_error = validate_name_part(scope.as_slice());
        if scope_error.is_some() {
            return scope_error;
        }
        validate_name_part(name.as_slice())
    } else {
        validate_name_part(v.as_slice())
    }
}

impl PackageNameError {
    /// The text that describes the error.
    pub open spec fn describe(self) -> Seq<char> {
        match self {
            PackageNameError::Empty => "package name cannot be empty"@,
            PackageNameError::InvalidStart(c) => "package name cannot start with `"@ + seq![c]
                + "`"@,
            PackageNameError::Whitespace => "package name cannot contain whitespace"@,
            PackageNameError::InvalidScopedName => "scoped package name must be `@scope/name`"@,
            PackageNameError::InvalidCharacter(c) => "package name cannot contain `"@ + seq![c]
                + "`"@,
            PackageNameError::Reserved => "package name is reserved"@,
        }
    }

    /// A human-readable description of the error.
    pub fn message(&self) -> (s: String)
        ensures
            s@ == self.describe(),
    {
        match self {
            PackageNameError::Empty => "package name cannot be empty".to_owned(),
            PackageNameError::InvalidStart(c) => text_with_char(
                "package name cannot start with `",
                *c,
                "`",
            ),
            PackageNameError::Whitespace => "package name cannot contain whitespace".to_owned(),
            PackageNameError::InvalidScopedName => "scoped package name must be `@scope/name`".to_owned(),
            PackageNameError::InvalidCharacter(c) => text_with_char(
                "package name cannot contain `",
                *c,
                "`",
            ),
            PackageNameError::Reserved => "package name is reserved".to_owned(),
        }
    }
}

} // verus!
