//! Identity of values by their models, and the detection of repeated values.
use vstd::prelude::*;

use crate::text::{chars_of, compare_text};

verus! {

/// Values that can be compared by their models.
pub trait SameAs: DeepView + Sized {
    /// `self` and `other` have the same model.
    fn same_as(&self, other: &Self) -> (b: bool)
        ensures
            b == (self.deep_view() == other.deep_view()),
    ;
}

/// Two texts hold the same characters.
pub fn same_text(a: &str, b: &str) -> (r: bool)
    ensures
        r == (a@ == b@),
{
    let x = chars_of(a);
    let y = chars_of(b);
    compare_text(x.as_slice(), y.as_slice()) == 0
}

/// `s[j]` already occurs before index `j`.
pub open spec fn repeats_at<A>(s: Seq<A>, j: int) -> bool {
    0 <= j < s.len() && s.take(j).contains(s[j])
}

/// `j` is the first index at which `s` repeats an earlier element.
pub open spec fn is_first_repeat<A>(s: Seq<A>, j: int) -> bool {
    repeats_at(s, j) && forall|k: int| 0 <= k < j ==> !repeats_at(s, k)
}

/// A sequence repeats no element exactly when no index repeats an earlier one.
pub proof fn lemma_repeats_no_duplicates<A>(s: Seq<A>)
    ensures
        (forall|j: int| !#[trigger] repeats_at(s, j)) <==> s.no_duplicates(),
{
    if s.no_duplicates() {
        assert forall|j: int| !#[trigger] repeats_at(s, j) by {
            if repeats_at(s, j) {
                let i = choose|i: int| 0 <= i < s.take(j).len() && s.take(j)[i] == s[j];
                assert(s[i] == s[j]);
            }
        }
    }
    if forall|j: int| !#[trigger] repeats_at(s, j) {
        assert forall|i: int, j: int|
            0 <= i < s.len() && 0 <= j < s.len() && i != j implies s[i] != s[j] by {
            if i < j {
                assert(s.take(j)[i] == s[i]);
                assert(!repeats_at(s, j));
            } else {
                assert(s.take(i)[j] == s[j]);
                assert(!repeats_at(s, i));
            }
        }
    }
}

/// The first index at which `v` repeats an earlier element, if any.
pub fn find_repeat<T: SameAs>(v: &Vec<T>) -> (r: Option<usize>)
    ensures
        match r {
            Some(j) => is_first_repeat(v.deep_view(), j as int),
            None => v.deep_view().no_duplicates(),
        },
{
    let ghost s = v.deep_view();
    let mut j: usize = 0;
    while j < v.len()
        invariant
            s == v.deep_view(),
            j <= v@.len(),
            forall|k: int| 0 <= k < j ==> !#[trigger] repeats_at(s, k),
        decreases v@.len() - j,
    {
        let mut i: usize = 0;
        while i < j
            invariant
                s == v.deep_view(),
                i <= j < v@.len(),
                forall|k: int| 0 <= k < j ==> !#[trigger] repeats_at(s, k),
                forall|m: int| 0 <= m < i ==> s[m] != s[j as int],
            decreases j - i,
        {
            if v[i].same_as(&v[j]) {
                assert(s.take(j as int)[i as int] == s[j as int]);
                assert(repeats_at(s, j as int));
                return Some(j);
            }
            i = i + 1;
        }
        assert(!repeats_at(s, j as int)) by {
            if repeats_at(s, j as int) {
                let m = choose|m: int|
                    0 <= m < s.take(j as int).len() && s.take(j as int)[m] == s[j as int];
                assert(s[m] == s[j as int]);
            }
        }
        j = j + 1;
    }
    proof {
        lemma_repeats_no_duplicates(s);
    }
    None
}

} // verus!
