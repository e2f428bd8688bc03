//! Spec-level vocabulary for lists of names (extension names, layer names)
//! held as `Vec<String>`, and the verified list operations the bootstrap
//! sequence needs: membership and deduplication.

use vstd::prelude::*;

verus! {

/// Whether some name of `v` has exactly the characters `x`.
pub open spec fn contains_name(v: Seq<String>, x: Seq<char>) -> bool {
    exists|i: int| 0 <= i < v.len() && v[i]@ == x
}

/// Whether no two names of `v` have the same characters.
pub open spec fn no_duplicate_names(v: Seq<String>) -> bool {
    forall|i: int, j: int| 0 <= i < j < v.len() ==> v[i]@ != v[j]@
}

/// Linear scan for a name with the characters of `x`.
pub fn vec_contains_name(v: &Vec<String>, x: &String) -> (r: bool)
    ensures
        r == contains_name(v@, x@),
{
    let mut k: usize = 0;
    while k < v.len()
        invariant
            0 <= k <= v.len(),
            forall|i: int| 0 <= i < k ==> v@[i]@ != x@,
        decreases v.len() - k,
    {
        if v[k] == *x {
            return true;
        }
        k += 1;
    }
    false
}

/// Whether `a` and `b` hold the same names, duplicates and order aside.
pub open spec fn same_name_set(a: Seq<String>, b: Seq<String>) -> bool {
    forall|x: Seq<char>| #[trigger] contains_name(a, x) <==> #[trigger] contains_name(b, x)
}

/// Copies `names` while dropping every recurrence of a name already copied,
/// so that the result holds each name of the input exactly once.
pub fn dedup_names(names: &Vec<String>) -> (r: Vec<String>)
    ensures
        no_duplicate_names(r@),
        same_name_set(r@, names@),
{
    let mut r: Vec<String> = Vec::new();
    let mut k: usize = 0;
    while k < names.len()
        invariant
            k <= names.len(),
            no_duplicate_names(r@),
            forall|x: Seq<char>| #[trigger] contains_name(r@, x) <==> exists|i: int|
                0 <= i < k && names@[i]@ == x,
        decreases names.len() - k,
    {
        let ghost prev = r@;
        let name = &names[k];
        if !vec_contains_name(&r, name) {
            r.push(name.clone());
            proof {
                assert forall|i: int, j: int| 0 <= i < j < r@.len() implies r@[i]@ != r@[j]@ by {
                    if j < prev.len() {
                        assert(prev[i]@ != prev[j]@);
                    } else {
                        assert(r@[j] == names@[k as int]);
                        assert(r@[i] == prev[i]);
                        assert(!contains_name(prev, names@[k as int]@));
                    }
                }
                assert forall|x: Seq<char>| #[trigger] contains_name(r@, x) implies exists|i: int|
                    0 <= i < k + 1 && names@[i]@ == x by {
                    let w = choose|w: int| 0 <= w < r@.len() && r@[w]@ == x;
                    if w < prev.len() {
                        assert(contains_name(prev, x));
                        let i = choose|i: int| 0 <= i < k && names@[i]@ == x;
                        assert(0 <= i < k + 1 && names@[i]@ == x);
                    } else {
                        assert(r@[w] == names@[k as int]);
                        assert(0 <= k < k + 1 && names@[k as int]@ == x);
                    }
                }
                assert forall|x: Seq<char>| (exists|i: int| 0 <= i < k + 1 && names@[i]@ == x)
                    implies #[trigger] contains_name(r@, x) by {
                    let i = choose|i: int| 0 <= i < k + 1 && names@[i]@ == x;
                    if i < k {
                        assert(contains_name(prev, x));
                        let w = choose|w: int| 0 <= w < prev.len() && prev[w]@ == x;
                        assert(r@[w]@ == x);
                    } else {
                        assert(r@[prev.len() as int]@ == x);
                    }
                }
            }
        } else {
            proof {
                assert(contains_name(r@, names@[k as int]@));
                assert forall|x: Seq<char>| (exists|i: int| 0 <= i < k + 1 && names@[i]@ == x)
                    implies #[trigger] contains_name(r@, x) by {
                    let i = choose|i: int| 0 <= i < k + 1 && names@[i]@ == x;
                    if i < k {
                        assert(contains_name(r@, x));
                    } else {
                        assert(names@[k as int]@ == x);
                    }
                }
            }
        }
        k += 1;
    }
    r
}

/// Law: a duplicate-free list holds each of its names at exactly one
/// position; in particular a deduplicated extension set contains each
/// required name exactly once.
pub proof fn lemma_unique_position(v: Seq<String>, x: Seq<char>)
    requires
        no_duplicate_names(v),
        contains_name(v, x),
    ensures
        exists|i: int|
            0 <= i < v.len() && v[i]@ == x && (forall|j: int|
                0 <= j < v.len() && #[trigger] v[j]@ == x ==> j == i),
{
    let i = choose|i: int| 0 <= i < v.len() && v[i]@ == x;
    assert(forall|j: int| 0 <= j < v.len() && #[trigger] v[j]@ == x ==> j == i);
}

} // verus!
