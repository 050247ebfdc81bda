//! Lists of strings, seen as sequences of character sequences.

use vstd::prelude::*;

verus! {

/// The contents of a list of strings.
pub open spec fn texts(v: Seq<String>) -> Seq<Seq<char>> {
    Seq::new(v.len(), |i: int| v[i]@)
}

/// A copy of a list of strings.
pub fn clone_texts(v: &Vec<String>) -> (r: Vec<String>)
    ensures
        texts(r@) == texts(v@),
{
    let n: usize = v.len();
    let mut r: Vec<String> = Vec::new();
    let mut i: usize = 0;
    while i < n
        invariant
            n == v@.len(),
            i <= n,
            r@.len() == i,
            forall|k: int| 0 <= k < i ==> (#[trigger] r@[k])@ == v@[k]@,
        decreases n - i,
    {
        r.push(v[i].clone());
        i = i + 1;
    }
    assert(texts(r@) =~= texts(v@));
    r
}

/// Tells whether no string occurs twice in the list.
pub fn all_distinct(v: &Vec<String>) -> (b: bool)
    ensures
        b == texts(v@).no_duplicates(),
{
    let n: usize = v.len();
    let ghost t = texts(v@);
    let mut j: usize = 0;
    while j < n
        invariant
            n == v@.len(),
            t == texts(v@),
            j <= n,
            forall|a: int, b: int| 0 <= a < b < j ==> t[a] != t[b],
        decreases n - j,
    {
        let mut i: usize = 0;
        while i < j
            invariant
                n == v@.len(),
                t == texts(v@),
                i <= j < n,
                forall|a: int| 0 <= a < i ==> t[a] != t[j as int],
            decreases j - i,
        {
            if v[i] == v[j] {
                assert(t[i as int] == t[j as int]);
                return false;
            }
            i = i + 1;
        }
        j = j + 1;
    }
    assert forall|a: int, b: int| 0 <= a < t.len() && 0 <= b < t.len() && a != b implies t[a]
        != t[b] by {
        if a < b {
            assert(t[a] != t[b]);
        } else {
            assert(t[b] != t[a]);
        }
    }
    true
}

} // verus!
