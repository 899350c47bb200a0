//! Finding and toggling items in sequences.

use vstd::prelude::*;

verus! {

/// `i` is the first position of `x` in `s`.
pub open spec fn is_first_index<T>(s: Seq<T>, x: T, i: int) -> bool {
    &&& 0 <= i < s.len()
    &&& s[i] == x
    &&& forall|j: int| 0 <= j < i ==> s[j] != x
}

/// The first position of `x` in `s`, if `x` occurs in `s`.
pub open spec fn first_index<T>(s: Seq<T>, x: T) -> Option<int> {
    if exists|i: int| is_first_index(s, x, i) {
        Some(choose|i: int| is_first_index(s, x, i))
    } else {
        None
    }
}

/// A first position is unique, so `first_index` names it.
pub proof fn lemma_first_index_is<T>(s: Seq<T>, x: T, i: int)
    requires
        is_first_index(s, x, i),
    ensures
        first_index(s, x) == Some(i),
{
    let k = choose|k: int| is_first_index(s, x, k);
    assert(is_first_index(s, x, k));
    if k < i {
        assert(s[k] != x);
    }
    if i < k {
        assert(s[i] != x);
    }
}

/// `first_index` is absent exactly when `x` does not occur.
pub proof fn lemma_first_index_none<T>(s: Seq<T>, x: T)
    requires
        forall|j: int| 0 <= j < s.len() ==> s[j] != x,
    ensures
        first_index(s, x) is None,
{
}

/// `s` with `x` removed at its first position if it occurs there, else with `x`
/// appended: the toggle that selection lists perform.
pub open spec fn toggled<T>(s: Seq<T>, x: T) -> Seq<T> {
    match first_index(s, x) {
        Some(i) => s.remove(i),
        None => s.push(x),
    }
}

/// The first position of `x` in `v`.
pub fn find_code(v: &Vec<u32>, x: u32) -> (r: Option<usize>)
    ensures
        match r {
            Some(i) => first_index(v@, x) == Some(i as int),
            None => first_index(v@, x) is None,
        },
{
    let mut i: usize = 0;
    while i < v.len()
        invariant
            i <= v.len(),
            forall|j: int| 0 <= j < i ==> v@[j] != x,
        decreases v.len() - i,
    {
        if v[i] == x {
            proof {
                lemma_first_index_is(v@, x, i as int);
            }
            return Some(i);
        }
        i = i + 1;
    }
    None
}

/// Toggles `x` in `v`: removes its first occurrence, or appends it.
pub fn toggle_code(v: &mut Vec<u32>, x: u32)
    ensures
        final(v)@ == toggled(old(v)@, x),
{
    match find_code(v, x) {
        Some(i) => {
            v.remove(i);
        },
        None => {
            v.push(x);
        },
    }
}

/// Toggling keeps a list free of repeats, and flips whether `x` is in it.
pub proof fn lemma_toggle_no_repeats<T>(s: Seq<T>, x: T)
    requires
        s.no_duplicates(),
    ensures
        toggled(s, x).no_duplicates(),
        toggled(s, x).contains(x) == !s.contains(x),
        forall|y: T| y != x ==> toggled(s, x).contains(y) == s.contains(y),
{
    match first_index(s, x) {
        Some(i) => {
            let k = choose|k: int| is_first_index(s, x, k);
            assert(is_first_index(s, x, k));
            let t = s.remove(k);
            assert forall|a: int, b: int| 0 <= a < b < t.len() implies t[a] != t[b] by {
                let a2 = if a < k { a } else { a + 1 };
                let b2 = if b < k { b } else { b + 1 };
                assert(t[a] == s[a2]);
                assert(t[b] == s[b2]);
            }
            assert(!t.contains(x)) by {
                if t.contains(x) {
                    let j = choose|j: int| 0 <= j < t.len() && t[j] == x;
                    let j2 = if j < k { j } else { j + 1 };
                    assert(s[j2] == x);
                    assert(s[k] == x);
                }
            }
            assert forall|y: T| y != x implies t.contains(y) == s.contains(y) by {
                if s.contains(y) {
                    let j = choose|j: int| 0 <= j < s.len() && s[j] == y;
                    assert(j != k);
                    let j2 = if j < k { j } else { j - 1 };
                    assert(t[j2] == y);
                }
                if t.contains(y) {
                    let j = choose|j: int| 0 <= j < t.len() && t[j] == y;
                    let j2 = if j < k { j } else { j + 1 };
                    assert(s[j2] == y);
                }
            }
        },
        None => {
            assert(!s.contains(x)) by {
                if s.contains(x) {
                    let j = choose|j: int| 0 <= j < s.len() && s[j] == x;
                    let m = choose|m: int|
                        0 <= m <= j && s[m] == x && forall|q: int| 0 <= q < m ==> s[q] != x;
                    assert(is_first_index(s, x, m));
                }
            }
            let t = s.push(x);
            assert(t[s.len() as int] == x);
            assert forall|a: int, b: int| 0 <= a < b < t.len() implies t[a] != t[b] by {
                if b == s.len() {
                    assert(s[a] != x);
                }
            }
            assert forall|y: T| y != x implies t.contains(y) == s.contains(y) by {
                if s.contains(y) {
                    let j = choose|j: int| 0 <= j < s.len() && s[j] == y;
                    assert(t[j] == y);
                }
                if t.contains(y) {
                    let j = choose|j: int| 0 <= j < t.len() && t[j] == y;
                    assert(j < s.len());
                    assert(s[j] == y);
                }
            }
        },
    }
}

/// Toggling an item that is not selected, then toggling it again, gives back
/// the selection as it was.
pub proof fn lemma_toggle_twice<T>(s: Seq<T>, x: T)
    requires
        !s.contains(x),
    ensures
        toggled(toggled(s, x), x) == s,
{
    assert forall|j: int| 0 <= j < s.len() implies s[j] != x by {
        if s[j] == x {
            assert(s.contains(x));
        }
    }
    lemma_first_index_none(s, x);
    let t = s.push(x);
    assert(is_first_index(t, x, s.len() as int));
    lemma_first_index_is(t, x, s.len() as int);
    assert(t.remove(s.len() as int) =~= s);
}

} // verus!
