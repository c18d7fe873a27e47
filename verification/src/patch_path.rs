//! Project-relative paths of patch files.
use vstd::prelude::*;

use crate::text::{
    chars_of, compare_text, contains_char, ends_with, find_char, has_suffix, lemma_find_char,
    starts_with,
};

verus! {

/// The directory, relative to the project, that holds patch files.
pub const PATCHES_DIR: &'static str = "patches";

/// `std::path::Path`, which `PatchPath::as_path` hands out; opaque to proofs.
#[verifier::external_type_specification]
#[verifier::external_body]
pub struct ExPath(std::path::Path);

#[derive(Debug, Clone, Copy, PartialEq, Eq)]
pub enum PatchPathError {
    Empty,
    Absolute,
    EmptySegment,
    CurrentDirectory,
    ParentDirectory,
    OutsidePatchesDirectory,
    MissingFilename,
    MissingPatchExtension,
}

/// The segments of `s` between `/` separators, in order; there is always at least one.
pub open spec fn split_segments(s: Seq<char>) -> Seq<Seq<char>>
    decreases s.len(),
{
    if s.len() == 0 {
        seq![Seq::<char>::empty()]
    } else {
        let r = split_segments(s.drop_last());
        if s.last() == '/' {
            r.push(Seq::<char>::empty())
        } else {
            r.update(r.len() - 1, r.last().push(s.last()))
        }
    }
}

pub proof fn lemma_split_segments_len(s: Seq<char>)
    ensures
        split_segments(s).len() >= 1,
    decreases s.len(),
{
    if s.len() > 0 {
        lemma_split_segments_len(s.drop_last());
    }
}

proof fn lemma_find_char_push(q: Seq<char>, c: char, x: char)
    ensures
        find_char(q.push(c), x) == if find_char(q, x) < q.len() {
            find_char(q, x)
        } else if c == x {
            q.len() as int
        } else {
            q.len() + 1int
        },
    decreases q.len(),
{
    lemma_find_char(q, x);
    if q.len() > 0 {
        assert(q.push(c)[0] == q[0]);
        assert(q.push(c).drop_first() == q.drop_first().push(c));
        lemma_find_char_push(q.drop_first(), c, x);
        lemma_find_char(q.drop_first(), x);
    } else {
        assert(q.push(c).drop_first() =~= Seq::<char>::empty());
        assert(find_char(Seq::<char>::empty(), x) == 0);
        assert(q.push(c)[0] == c);
    }
}

/// The first segment is the text before the first `/`, and there are further segments
/// exactly when the text holds a `/`.
pub proof fn lemma_first_segment(p: Seq<char>)
    ensures
        split_segments(p)[0] == p.take(find_char(p, '/')),
        split_segments(p).len() > 1 <==> find_char(p, '/') < p.len(),
    decreases p.len(),
{
    lemma_find_char(p, '/');
    if p.len() > 0 {
        let q = p.drop_last();
        let c = p.last();
        assert(q.push(c) == p);
        lemma_first_segment(q);
        lemma_split_segments_len(q);
        lemma_find_char(q, '/');
        lemma_find_char_push(q, c, '/');
        if find_char(q, '/') < q.len() {
            assert(p.take(find_char(p, '/')) == q.take(find_char(q, '/')));
        } else {
            assert(q.take(q.len() as int) == q);
            if c == '/' {
                assert(p.take(q.len() as int) == q);
            } else {
                assert(p.take(p.len() as int) == p);
            }
        }
    } else {
        assert(p.take(0) =~= Seq::<char>::empty());
    }
}

/// A valid patch path starts with `patches/`, ends with `.patch`, and holds no backslash.
pub proof fn lemma_valid_patch_path_shape(p: Seq<char>)
    requires
        patch_path_error(p) is None,
    ensures
        starts_with(p, PATCHES_DIR@ + seq!['/']),
        ends_with(p, ".patch"@),
        !p.contains('\\'),
{
    lemma_first_segment(p);
    lemma_split_segments_len(p);
    lemma_find_char(p, '/');
    let k = find_char(p, '/');
    let prefix = PATCHES_DIR@ + seq!['/'];
    assert(p.take(k + 1) =~= p.take(k).push('/'));
    assert(prefix =~= PATCHES_DIR@.push('/'));
}

/// What is wrong with one segment after `patches`; `last` tells whether it ends the path.
pub open spec fn segment_error(seg: Seq<char>, last: bool) -> Option<PatchPathError> {
    if seg.len() == 0 {
        if last {
            Some(PatchPathError::MissingFilename)
        } else {
            Some(PatchPathError::EmptySegment)
        }
    } else if seg == seq!['.'] {
        Some(PatchPathError::CurrentDirectory)
    } else if seg == seq!['.', '.'] {
        Some(PatchPathError::ParentDirectory)
    } else {
        None
    }
}

/// The first error among the segments `segs`, which end the path.
pub open spec fn segments_error(segs: Seq<Seq<char>>) -> Option<PatchPathError>
    decreases segs.len(),
{
    if segs.len() == 0 {
        None
    } else {
        match segment_error(segs[0], segs.len() == 1) {
            Some(e) => Some(e),
            None => segments_error(segs.drop_first()),
        }
    }
}

/// The first rule that `p` breaks as a patch path, in the order the rules are checked;
/// `None` for a valid patch path.
pub open spec fn patch_path_error(p: Seq<char>) -> Option<PatchPathError> {
    if p.len() == 0 {
        Some(PatchPathError::Empty)
    } else if p[0] == '/' || p.contains('\\') {
        Some(PatchPathError::Absolute)
    } else {
        let segs = split_segments(p);
        if segs[0] != PATCHES_DIR@ {
            Some(PatchPathError::OutsidePatchesDirectory)
        } else if segs.len() == 1 {
            Some(PatchPathError::MissingFilename)
        } else if segments_error(segs.drop_first()) is Some {
            segments_error(segs.drop_first())
        } else if !ends_with(p, ".patch"@) {
            Some(PatchPathError::MissingPatchExtension)
        } else {
            None
        }
    }
}

/// Project-relative path to a patch file: `patches/` followed by one or more
/// non-empty segments, none of them `.` or `..`, ending in `.patch`.
#[derive(Debug, PartialEq, Eq, PartialOrd, Ord, Hash)]
pub struct PatchPath(String);

impl View for PatchPath {
    type V = Seq<char>;

    closed spec fn view(&self) -> Seq<char> {
        self.0@
    }
}

impl DeepView for PatchPath {
    type V = Seq<char>;

    open spec fn deep_view(&self) -> Seq<char> {
        self@
    }
}

/// The texts of the character vectors in `v`.
pub open spec fn texts(v: Seq<Vec<char>>) -> Seq<Seq<char>> {
    v.map_values(|x: Vec<char>| x@)
}

fn split_on_slash(p: &[char]) -> (segs: Vec<Vec<char>>)
    ensures
        texts(segs@) == split_segments(p@),
{
    let mut done: Vec<Vec<char>> = Vec::new();
    let mut cur: Vec<char> = Vec::new();
    let mut i: usize = 0;
    assert(p@.take(0) =~= Seq::<char>::empty());
    assert(texts(done@).push(cur@) =~= split_segments(p@.take(0)));
    while i < p.len()
        invariant
            i <= p@.len(),
            texts(done@).push(cur@) == split_segments(p@.take(i as int)),
        decreases p@.len() - i,
    {
        let c = p[i];
        let ghost before = texts(done@).push(cur@);
        assert(p@.take(i + 1).drop_last() == p@.take(i as int));
        assert(p@.take(i + 1).last() == c);
        if c == '/' {
            done.push(cur);
            cur = Vec::new();
            assert(texts(done@).push(cur@) =~= before.push(Seq::<char>::empty()));
        } else {
            cur.push(c);
            assert(texts(done@).push(cur@) =~= before.update(
                before.len() - 1,
                before.last().push(c),
            ));
        }
        i = i + 1;
    }
    assert(p@.take(p@.len() as int) == p@);
    let ghost before = texts(done@).push(cur@);
    done.push(cur);
    assert(texts(done@) =~= before);
    done
}

fn is_dot(seg: &Vec<char>) -> (b: bool)
    ensures
        b == (seg@ == seq!['.']),
{
    let r = seg.len() == 1 && seg[0] == '.';
    proof {
        if seg@.len() == 1 && seg@[0] == '.' {
            assert(seg@ =~= seq!['.']);
        }
    }
    r
}

fn is_dot_dot(seg: &Vec<char>) -> (b: bool)
    ensures
        b == (seg@ == seq!['.', '.']),
{
    let r = seg.len() == 2 && seg[0] == '.' && seg[1] == '.';
    proof {
        if seg@.len() == 2 && seg@[0] == '.' && seg@[1] == '.' {
            assert(seg@ =~= seq!['.', '.']);
        }
    }
    r
}

fn check_segments(segs: &Vec<Vec<char>>) -> (r: Option<PatchPathError>)
    requires
        segs@.len() >= 1,
    ensures
        r == segments_error(texts(segs@).drop_first()),
{
    let ghost all = texts(segs@);
    let mut k: usize = 1;
    assert(all.skip(1) == all.drop_first());
    while k < segs.len()
        invariant
            all == texts(segs@),
            1 <= k <= segs@.len(),
            segments_error(all.drop_first()) == segments_error(all.skip(k as int)),
        decreases segs@.len() - k,
    {
        let seg = &segs[k];
        let last = k + 1 == segs.len();
        let ghost rest = all.skip(k as int);
        assert(rest[0] == seg@);
        assert(rest.drop_first() == all.skip(k + 1));
        if seg.len() == 0 {
            if last {
                return Some(PatchPathError::MissingFilename);
            } else {
                return Some(PatchPathError::EmptySegment);
            }
        }
        if is_dot(seg) {
            return Some(PatchPathError::CurrentDirectory);
        }
        if is_dot_dot(seg) {
            return Some(PatchPathError::ParentDirectory);
        }
        k = k + 1;
    }
    assert(all.skip(k as int).len() == 0);
    None
}

fn validate_patch_path(p: &Vec<char>) -> (r: Option<PatchPathError>)
    ensures
        r == patch_path_error(p@),
{
    if p.len() == 0 {
        return Some(PatchPathError::Empty);
    }
    if p[0] == '/' || contains_char(p.as_slice(), '\\') {
        return Some(PatchPathError::Absolute);
    }
    let segs = split_on_slash(p.as_slice());
    proof {
        lemma_split_segments_len(p@);
    }
    let dir = chars_of(PATCHES_DIR);
    assert(texts(segs@)[0] == segs@[0]@);
    if compare_text(segs[0].as_slice(), dir.as_slice()) != 0 {
        return Some(PatchPathError::OutsidePatchesDirectory);
    }
    if segs.len() == 1 {
        return Some(PatchPathError::MissingFilename);
    }
    let seg_error = check_segments(&segs);
    if seg_error.is_some() {
        return seg_error;
    }
    if !has_suffix(p.as_slice(), ".patch") {
        return Some(PatchPathError::MissingPatchExtension);
    }
    None
}

impl PatchPath {
    #[verifier::type_invariant]
    closed spec fn valid(self) -> bool {
        patch_path_error(self.0@) is None
    }

    pub fn new(path: &str) -> (r: Result<Self, PatchPathError>)
        ensures
            match r {
                Ok(p) => patch_path_error(path@) is None && p@ == path@,
                Err(e) => patch_path_error(path@) == Some(e),
            },
    {
        let v = chars_of(path);
        match validate_patch_path(&v) {
            Some(e) => Err(e),
            None => Ok(PatchPath(path.to_owned())),
        }
    }

    /// The path as a `Path`, made by `std::path::Path::new` over the path's text.
    /// The contract states nothing of the result.
    #[verifier::external_body]
    pub fn as_path(&self) -> &std::path::Path {
        std::path::Path::new(&self.0)
    }

    /// The path's text; it is always a valid patch path.
    pub fn as_str(&self) -> (s: &str)
        ensures
            s@ == self@,
            patch_path_error(self@) is None,
    {
        proof {
            use_type_invariant(self);
        }
        self.0.as_str()
    }
}

impl Clone for PatchPath {
    fn clone(&self) -> (r: Self)
        ensures
            r@ == self@,
    {
        proof {
            use_type_invariant(self);
        }
        PatchPath(self.0.clone())
    }
}

impl PatchPathError {
    pub open spec fn describe(self) -> Seq<char> {
        match self {
            PatchPathError::Empty => "patch path cannot be empty"@,
            PatchPathError::Absolute => "patch path must be relative"@,
            PatchPathError::EmptySegment => "patch path cannot contain empty segments"@,
            PatchPathError::CurrentDirectory => "patch path cannot contain `.` components"@,
            PatchPathError::ParentDirectory => "patch path cannot contain `..` components"@,
            PatchPathError::OutsidePatchesDirectory => "patch path must be inside the `patches` directory"@,
            PatchPathError::MissingFilename => "patch path must include a filename"@,
            PatchPathError::MissingPatchExtension => "patch path must end with `.patch`"@,
        }
    }

    /// A human-readable description of the error.
    pub fn message(&self) -> (s: String)
        ensures
            s@ == self.describe(),
    {
        match self {
            PatchPathError::Empty => "patch path cannot be empty".to_owned(),
            PatchPathError::Absolute => "patch path must be relative".to_owned(),
            PatchPathError::EmptySegment => "patch path cannot contain empty segments".to_owned(),
            PatchPathError::CurrentDirectory => "patch path cannot contain `.` components".to_owned(),
            PatchPathError::ParentDirectory => "patch path cannot contain `..` components".to_owned(),
            PatchPathError::OutsidePatchesDirectory => "patch path must be inside the `patches` directory".to_owned(),
            PatchPathError::MissingFilename => "patch path must include a filename".to_owned(),
            PatchPathError::MissingPatchExtension => "patch path must end with `.patch`".to_owned(),
        }
    }
}

} // verus!
