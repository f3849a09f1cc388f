//! Lookup by string key in lists of entries. Like a map filled in list order, a later entry
//! overrides an earlier one with the same key: the last entry with the key wins.

use vstd::prelude::*;

verus! {

/// An entry that is found by a string key.
pub trait Keyed {
    spec fn key_view(&self) -> Seq<char>;

    fn key(&self) -> (r: &String)
        ensures
            r@ == self.key_view(),
    ;
}

/// `i` is the first position of `s` whose element satisfies `p`.
pub open spec fn is_first_where<T>(s: Seq<T>, p: spec_fn(T) -> bool, i: int) -> bool {
    &&& 0 <= i < s.len()
    &&& p(s[i])
    &&& forall|j: int| 0 <= j < i ==> !p(#[trigger] s[j])
}

/// The first position of `s` whose element satisfies `p`, if any.
pub open spec fn first_where<T>(s: Seq<T>, p: spec_fn(T) -> bool) -> Option<int> {
    if exists|i: int| is_first_where(s, p, i) {
        Some(choose|i: int| is_first_where(s, p, i))
    } else {
        None
    }
}

/// `i` is the last position of `s` whose element satisfies `p`.
pub open spec fn is_last_where<T>(s: Seq<T>, p: spec_fn(T) -> bool, i: int) -> bool {
    &&& 0 <= i < s.len()
    &&& p(s[i])
    &&& forall|j: int| i < j < s.len() ==> !p(#[trigger] s[j])
}

/// The last position of `s` whose element satisfies `p`, if any.
pub open spec fn last_where<T>(s: Seq<T>, p: spec_fn(T) -> bool) -> Option<int> {
    if exists|i: int| is_last_where(s, p, i) {
        Some(choose|i: int| is_last_where(s, p, i))
    } else {
        None
    }
}

/// The position of the entry of `s` that key `k` finds: the last one with that key.
pub open spec fn index_of<T: Keyed>(s: Seq<T>, k: Seq<char>) -> Option<int> {
    last_where(s, |x: T| x.key_view() == k)
}

/// The entry of `s` that key `k` finds (the last one with that key), if any.
pub open spec fn lookup<T: Keyed>(s: Seq<T>, k: Seq<char>) -> Option<T> {
    match index_of(s, k) {
        Some(i) => Some(s[i]),
        None => None,
    }
}

/// A first match is the only one.
pub proof fn lemma_first_where_unique<T>(s: Seq<T>, p: spec_fn(T) -> bool, i: int)
    requires
        is_first_where(s, p, i),
    ensures
        first_where(s, p) == Some(i),
{
    let c = choose|c: int| is_first_where(s, p, c);
    assert(is_first_where(s, p, c));
    if c < i {
        assert(!p(s[c]));
    } else if c > i {
        assert(!p(s[i]));
    }
}

/// Where no element satisfies `p` there is no first match.
pub proof fn lemma_first_where_none<T>(s: Seq<T>, p: spec_fn(T) -> bool)
    requires
        forall|j: int| 0 <= j < s.len() ==> !p(#[trigger] s[j]),
    ensures
        first_where(s, p) is None,
{
    if exists|i: int| is_first_where(s, p, i) {
        let i = choose|i: int| is_first_where(s, p, i);
        assert(!p(s[i]));
    }
}

/// A last match is the only one.
pub proof fn lemma_last_where_unique<T>(s: Seq<T>, p: spec_fn(T) -> bool, i: int)
    requires
        is_last_where(s, p, i),
    ensures
        last_where(s, p) == Some(i),
{
    let c = choose|c: int| is_last_where(s, p, c);
    assert(is_last_where(s, p, c));
    if c < i {
        assert(!p(s[i]));
    } else if c > i {
        assert(!p(s[c]));
    }
}

/// Where no element satisfies `p` there is no last match.
pub proof fn lemma_last_where_none<T>(s: Seq<T>, p: spec_fn(T) -> bool)
    requires
        forall|j: int| 0 <= j < s.len() ==> !p(#[trigger] s[j]),
    ensures
        last_where(s, p) is None,
{
    if exists|i: int| is_last_where(s, p, i) {
        let i = choose|i: int| is_last_where(s, p, i);
        assert(!p(s[i]));
    }
}

/// Replacing an entry by one with the same key leaves every lookup where it was.
pub proof fn lemma_index_of_update<T: Keyed>(s: Seq<T>, i: int, x: T)
    requires
        0 <= i < s.len(),
        x.key_view() == s[i].key_view(),
    ensures
        forall|k: Seq<char>| #[trigger] index_of(s.update(i, x), k) == index_of(s, k),
{
    let t = s.update(i, x);
    assert forall|k: Seq<char>| #[trigger] index_of(t, k) == index_of(s, k) by {
        let p = |y: T| y.key_view() == k;
        assert forall|j: int| 0 <= j < s.len() implies p(t[j]) == p(s[j]) by {}
        match index_of(s, k) {
            Some(j) => {
                assert(is_last_where(s, p, j));
                assert(is_last_where(t, p, j));
                lemma_last_where_unique(t, p, j);
            },
            None => {
                if exists|j: int| is_last_where(t, p, j) {
                    let j = choose|j: int| is_last_where(t, p, j);
                    assert(is_last_where(s, p, j));
                    lemma_last_where_unique(s, p, j);
                }
            },
        }
    }
}

/// Appending an entry makes its key find it, and leaves the other lookups as they were.
pub proof fn lemma_index_of_push<T: Keyed>(s: Seq<T>, x: T)
    ensures
        index_of(s.push(x), x.key_view()) == Some(s.len() as int),
        forall|k: Seq<char>|
            k != x.key_view() ==> #[trigger] index_of(s.push(x), k) == index_of(s, k),
{
    let t = s.push(x);
    assert forall|j: int| 0 <= j < s.len() implies #[trigger] t[j] == s[j] by {}
    let px = |y: T| y.key_view() == x.key_view();
    assert(is_last_where(t, px, s.len() as int));
    lemma_last_where_unique(t, px, s.len() as int);
    assert forall|k: Seq<char>| k != x.key_view() implies #[trigger] index_of(t, k) == index_of(s, k) by {
        let p = |y: T| y.key_view() == k;
        match index_of(s, k) {
            Some(j) => {
                assert(is_last_where(s, p, j));
                assert(is_last_where(t, p, j));
                lemma_last_where_unique(t, p, j);
            },
            None => {
                if exists|j: int| is_last_where(t, p, j) {
                    let j = choose|j: int| is_last_where(t, p, j);
                    assert(j < s.len());
                    assert(t[j] == s[j]);
                    assert forall|l: int| j < l < s.len() implies !p(#[trigger] s[l]) by {
                        assert(t[l] == s[l]);
                    }
                    assert(is_last_where(s, p, j));
                    lemma_last_where_unique(s, p, j);
                }
            },
        }
    }
}

/// The position of the entry of `items` that key `k` finds: the last one with that key.
pub fn find_index<T: Keyed>(items: &Vec<T>, k: &String) -> (r: Option<usize>)
    ensures
        match r {
            Some(i) => index_of(items@, k@) == Some(i as int),
            None => index_of(items@, k@) is None,
        },
{
    let n = items.len();
    let mut i: usize = n;
    while i > 0
        invariant
            n == items@.len(),
            i <= n,
            forall|j: int| i <= j < n ==> #[trigger] items@[j].key_view() != k@,
        decreases i,
    {
        i = i - 1;
        if *items[i].key() == *k {
            proof {
                lemma_last_where_unique(items@, |x: T| x.key_view() == k@, i as int);
            }
            return Some(i);
        }
    }
    proof {
        lemma_last_where_none(items@, |x: T| x.key_view() == k@);
    }
    None
}

} // verus!
