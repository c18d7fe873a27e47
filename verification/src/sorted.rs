//! Vectors kept in strictly increasing order of a text key: the form in which
//! keyed collections are held, so that equal contents have equal representations.
use vstd::prelude::*;

use crate::same::{is_first_repeat, lemma_repeats_no_duplicates, repeats_at};
use crate::text::{
    compare_text, lemma_text_lt_asymmetric, lemma_text_lt_irreflexive, lemma_text_lt_transitive,
    text_lt,
};

verus! {

/// Values ordered and found by a text key, which is a function of their model.
pub trait Keyed: DeepView + Sized {
    spec fn key_of(m: Self::V) -> Seq<char>;

    fn key_chars(&self) -> (k: Vec<char>)
        ensures
            k@ == Self::key_of(self.deep_view()),
    ;
}

/// The keys of `s` increase strictly, so no key occurs twice.
pub open spec fn sorted_keys<T: Keyed>(s: Seq<T::V>) -> bool {
    forall|i: int, j: int|
        0 <= i < j < s.len() ==> text_lt(#[trigger] T::key_of(s[i]), #[trigger] T::key_of(s[j]))
}

/// Some element of `s` has key `k`.
pub open spec fn has_key<T: Keyed>(s: Seq<T::V>, k: Seq<char>) -> bool {
    exists|i: int| 0 <= i < s.len() && #[trigger] T::key_of(s[i]) == k
}

/// Two sequences sorted by key that hold the same elements are equal.
pub proof fn lemma_sorted_unique<T: Keyed>(a: Seq<T::V>, b: Seq<T::V>)
    requires
        sorted_keys::<T>(a),
        sorted_keys::<T>(b),
        a.to_set() == b.to_set(),
    ensures
        a == b,
    decreases a.len(),
{
    if a.len() == 0 {
        if b.len() > 0 {
            assert(b.to_set().contains(b[0]));
        }
        assert(a =~= b);
    } else {
        if b.len() == 0 {
            assert(a.to_set().contains(a[0]));
        }
        assert(a.to_set().contains(a[0]));
        assert(b.to_set().contains(b[0]));
        let j = choose|j: int| 0 <= j < b.len() && b[j] == a[0];
        let i = choose|i: int| 0 <= i < a.len() && a[i] == b[0];
        if j > 0 {
            assert(text_lt(T::key_of(b[0]), T::key_of(b[j])));
            if i > 0 {
                assert(text_lt(T::key_of(a[0]), T::key_of(a[i])));
                lemma_text_lt_asymmetric(T::key_of(a[0]), T::key_of(b[0]));
            } else {
                lemma_text_lt_irreflexive(T::key_of(a[0]));
            }
        }
        assert(a[0] == b[0]);
        let ra = a.drop_first();
        let rb = b.drop_first();
        assert forall|x: T::V| ra.to_set().contains(x) implies rb.to_set().contains(x) by {
            let n = choose|n: int| 0 <= n < ra.len() && ra[n] == x;
            assert(a[n + 1] == x);
            assert(a.to_set().contains(x));
            assert(b.to_set().contains(x));
            let m = choose|m: int| 0 <= m < b.len() && b[m] == x;
            if m == 0 {
                assert(text_lt(T::key_of(a[0]), T::key_of(a[n + 1])));
                lemma_text_lt_irreflexive(T::key_of(a[0]));
            }
            assert(rb[m - 1] == x);
        }
        assert forall|x: T::V| rb.to_set().contains(x) implies ra.to_set().contains(x) by {
            let n = choose|n: int| 0 <= n < rb.len() && rb[n] == x;
            assert(b[n + 1] == x);
            assert(b.to_set().contains(x));
            assert(a.to_set().contains(x));
            let m = choose|m: int| 0 <= m < a.len() && a[m] == x;
            if m == 0 {
                assert(text_lt(T::key_of(b[0]), T::key_of(b[n + 1])));
                lemma_text_lt_irreflexive(T::key_of(b[0]));
            }
            assert(ra[m - 1] == x);
        }
        assert(ra.to_set() =~= rb.to_set());
        assert(sorted_keys::<T>(ra)) by {
            assert forall|p: int, q: int| 0 <= p < q < ra.len() implies text_lt(
                #[trigger] T::key_of(ra[p]),
                #[trigger] T::key_of(ra[q]),
            ) by {
                assert(ra[p] == a[p + 1] && ra[q] == a[q + 1]);
            }
        }
        assert(sorted_keys::<T>(rb)) by {
            assert forall|p: int, q: int| 0 <= p < q < rb.len() implies text_lt(
                #[trigger] T::key_of(rb[p]),
                #[trigger] T::key_of(rb[q]),
            ) by {
                assert(rb[p] == b[p + 1] && rb[q] == b[q + 1]);
            }
        }
        lemma_sorted_unique::<T>(ra, rb);
        assert(a =~= seq![a[0]] + ra);
        assert(b =~= seq![b[0]] + rb);
    }
}

/// Where a key belongs in a sorted vector: the first index whose key is not below it,
/// and whether the key is already there.
fn find_slot<T: Keyed>(v: &Vec<T>, k: &Vec<char>) -> (r: (usize, bool))
    requires
        sorted_keys::<T>(v.deep_view()),
    ensures
        r.0 <= v@.len(),
        forall|j: int| 0 <= j < r.0 ==> text_lt(#[trigger] T::key_of(v.deep_view()[j]), k@),
        r.1 ==> r.0 < v@.len() && T::key_of(v.deep_view()[r.0 as int]) == k@,
        !r.1 ==> r.0 < v@.len() ==> text_lt(k@, T::key_of(v.deep_view()[r.0 as int])),
{
    let ghost s = v.deep_view();
    let mut p: usize = 0;
    while p < v.len()
        invariant
            s == v.deep_view(),
            p <= v@.len(),
            forall|j: int| 0 <= j < p ==> text_lt(#[trigger] T::key_of(s[j]), k@),
        decreases v@.len() - p,
    {
        let kp = v[p].key_chars();
        assert(s[p as int] == v@[p as int].deep_view());
        let c = compare_text(kp.as_slice(), k.as_slice());
        if c == 0 {
            return (p, true);
        }
        if c == 1 {
            return (p, false);
        }
        p = p + 1;
    }
    (p, false)
}

/// Inserts `x` at its place in `v`, unless its key is already there; then `x` is handed back
/// and `v` is unchanged.
pub fn insert_sorted<T: Keyed>(v: &mut Vec<T>, x: T) -> (r: Option<T>)
    requires
        sorted_keys::<T>(old(v).deep_view()),
    ensures
        match r {
            Some(y) => has_key::<T>(old(v).deep_view(), T::key_of(x.deep_view()))
                && y.deep_view() == x.deep_view() && final(v).deep_view() == old(v).deep_view(),
            None => !has_key::<T>(old(v).deep_view(), T::key_of(x.deep_view())) && sorted_keys::<T>(
                final(v).deep_view(),
            ) && final(v).deep_view().to_set() == old(v).deep_view().to_set().insert(x.deep_view())
                && final(v).deep_view().len() == old(v).deep_view().len() + 1,
        },
{
    let ghost s = v.deep_view();
    let ghost kx = T::key_of(x.deep_view());
    let k = x.key_chars();
    let (p, found) = find_slot(v, &k);
    if found {
        assert(T::key_of(s[p as int]) == kx);
        return Some(x);
    }
    proof {
        assert forall|j: int| p <= j < s.len() implies text_lt(kx, #[trigger] T::key_of(s[j])) by {
            if j > p {
                assert(text_lt(T::key_of(s[p as int]), T::key_of(s[j])));
                lemma_text_lt_transitive(kx, T::key_of(s[p as int]), T::key_of(s[j]));
            }
        }
        assert forall|j: int| 0 <= j < s.len() implies #[trigger] T::key_of(s[j]) != kx by {
            if j < p {
                lemma_text_lt_irreflexive(kx);
            } else {
                lemma_text_lt_irreflexive(kx);
            }
        }
    }
    let ghost xv = x.deep_view();
    v.insert(p, x);
    let ghost t = v.deep_view();
    assert(t =~= s.insert(p as int, xv));
    proof {
        assert forall|i: int, j: int| 0 <= i < j < t.len() implies text_lt(
            #[trigger] T::key_of(t[i]),
            #[trigger] T::key_of(t[j]),
        ) by {
            if j < p {
                assert(t[i] == s[i] && t[j] == s[j]);
            } else if j == p {
                assert(t[i] == s[i] && t[j] == xv);
            } else if i < p {
                assert(t[i] == s[i] && t[j] == s[j - 1]);
                assert(text_lt(T::key_of(s[i]), kx));
                lemma_text_lt_transitive(T::key_of(s[i]), kx, T::key_of(s[j - 1]));
            } else if i == p {
                assert(t[i] == xv && t[j] == s[j - 1]);
            } else {
                assert(t[i] == s[i - 1] && t[j] == s[j - 1]);
            }
        }
        assert forall|y: T::V| t.to_set().contains(y) <==> s.to_set().insert(xv).contains(y) by {
            if t.to_set().contains(y) {
                let n = choose|n: int| 0 <= n < t.len() && t[n] == y;
                if n < p {
                    assert(s[n] == y);
                } else if n > p {
                    assert(s[n - 1] == y);
                }
            }
            if s.to_set().contains(y) {
                let n = choose|n: int| 0 <= n < s.len() && s[n] == y;
                if n < p {
                    assert(t[n] == y);
                } else {
                    assert(t[n + 1] == y);
                }
            }
            if y == xv {
                assert(t[p as int] == y);
            }
        }
        assert(t.to_set() =~= s.to_set().insert(xv));
    }
    None
}

/// The element of `v` with key `k`, if there is one.
pub fn find_by_key<T: Keyed>(v: &Vec<T>, k: &Vec<char>) -> (r: Option<usize>)
    ensures
        match r {
            Some(i) => i < v@.len() && T::key_of(v.deep_view()[i as int]) == k@,
            None => !has_key::<T>(v.deep_view(), k@),
        },
{
    let ghost s = v.deep_view();
    let mut i: usize = 0;
    while i < v.len()
        invariant
            s == v.deep_view(),
            i <= v@.len(),
            forall|j: int| 0 <= j < i ==> #[trigger] T::key_of(s[j]) != k@,
        decreases v@.len() - i,
    {
        let ki = v[i].key_chars();
        assert(s[i as int] == v@[i as int].deep_view());
        if compare_text(ki.as_slice(), k.as_slice()) == 0 {
            return Some(i);
        }
        i = i + 1;
    }
    None
}


/// The keys of the elements of `s`, in order.
pub open spec fn keys_of<T: Keyed>(s: Seq<T::V>) -> Seq<Seq<char>> {
    s.map_values(|m: T::V| T::key_of(m))
}

/// The items of `items` in increasing order of key, or the first item whose key
/// an earlier item already has.
pub fn collect_sorted<T: Keyed>(items: Vec<T>) -> (r: Result<Vec<T>, T>)
    ensures
        match r {
            Ok(v) => {
                &&& keys_of::<T>(items.deep_view()).no_duplicates()
                &&& sorted_keys::<T>(v.deep_view())
                &&& v.deep_view().to_set() == items.deep_view().to_set()
                &&& v.deep_view().len() == items.deep_view().len()
            },
            Err(x) => exists|j: int|
                is_first_repeat(keys_of::<T>(items.deep_view()), j) && x.deep_view()
                    == items.deep_view()[j],
        },
{
    let ghost input = items.deep_view();
    let ghost keys = keys_of::<T>(input);
    let ghost elems = items@;
    let mut sorted: Vec<T> = Vec::new();
    assert(input.take(0).to_set() =~= sorted.deep_view().to_set());
    for item in it: items.into_iter()
        invariant
            it.seq() == elems,
            input == items.deep_view(),
            input.len() == elems.len(),
            forall|k: int| 0 <= k < elems.len() ==> #[trigger] input[k] == elems[k].deep_view(),
            keys == keys_of::<T>(input),
            sorted_keys::<T>(sorted.deep_view()),
            sorted.deep_view().to_set() == input.take(it.index() as int).to_set(),
            sorted.deep_view().len() == it.index(),
            forall|k: int| 0 <= k < it.index() ==> !#[trigger] repeats_at(keys, k),
    {
        let ghost i = it.index() as int;
        let ghost before = sorted.deep_view();
        assert(item.deep_view() == input[i]);
        assert(keys[i] == T::key_of(input[i]));
        match insert_sorted(&mut sorted, item) {
            Some(duplicate) => {
                proof {
                    let e = choose|e: int|
                        0 <= e < before.len() && #[trigger] T::key_of(before[e]) == keys[i];
                    assert(before.to_set().contains(before[e]));
                    let m = choose|m: int|
                        0 <= m < input.take(i).len() && input.take(i)[m] == before[e];
                    assert(keys.take(i)[m] == keys[i]);
                    assert(repeats_at(keys, i));
                    assert(is_first_repeat(keys, i));
                }
                return Err(duplicate);
            },
            None => {
                proof {
                    if repeats_at(keys, i) {
                        let m = choose|m: int|
                            0 <= m < keys.take(i).len() && keys.take(i)[m] == keys[i];
                        assert(input.take(i)[m] == input[m]);
                        assert(input.take(i).to_set().contains(input[m]));
                        let e = choose|e: int| 0 <= e < before.len() && before[e] == input[m];
                        assert(T::key_of(before[e]) == keys[i]);
                        assert(has_key::<T>(before, keys[i]));
                    }
                    assert(input.take(i + 1) == input.take(i).push(input[i]));
                    input.take(i).lemma_push_to_set_commute(input[i]);
                }
            },
        }
    }
    proof {
        assert(input.take(input.len() as int) == input);
        lemma_repeats_no_duplicates(keys);
    }
    Ok(sorted)
}

} // verus!
