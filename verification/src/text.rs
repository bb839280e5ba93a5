//! Small string helpers shared by the other modules.

use vstd::prelude::*;

verus! {

/// Compares two string slices character by character.
pub fn str_eq(a: &str, b: &str) -> (r: bool)
    ensures
        r == (a@ == b@),
{
    let n = a.unicode_len();
    let m = b.unicode_len();
    if n != m {
        return false;
    }
    let mut i: usize = 0;
    while i < n
        invariant
            n == a@.len(),
            m == b@.len(),
            n == m,
            i <= n,
            forall|j: int| 0 <= j < i ==> a@[j] == b@[j],
        decreases n - i,
    {
        if a.get_char(i) != b.get_char(i) {
            return false;
        }
        i = i + 1;
    }
    assert(a@ =~= b@);
    true
}

} // verus!

verus! {

/// The character sequences of a sequence of owned strings.
pub open spec fn views(v: Seq<String>) -> Seq<Seq<char>> {
    v.map_values(|s: String| s@)
}

/// Whether some string in `v` has the characters of `s`.
pub fn contains_str(v: &Vec<String>, s: &str) -> (r: bool)
    ensures
        r == views(v@).contains(s@),
{
    let mut i: usize = 0;
    while i < v.len()
        invariant
            i <= v.len(),
            forall|j: int| 0 <= j < i ==> v@[j]@ != s@,
        decreases v.len() - i,
    {
        if str_eq(v[i].as_str(), s) {
            assert(views(v@)[i as int] == s@);
            return true;
        }
        i = i + 1;
    }
    proof {
        if views(v@).contains(s@) {
            let k = choose|k: int| 0 <= k < views(v@).len() && views(v@)[k] == s@;
            assert(v@[k]@ == s@);
        }
    }
    false
}

/// A copy of a list of strings.
pub fn clone_strings(v: &Vec<String>) -> (r: Vec<String>)
    ensures
        r@ == v@,
{
    let mut r: Vec<String> = Vec::new();
    let mut i: usize = 0;
    while i < v.len()
        invariant
            i <= v.len(),
            r@ == v@.take(i as int),
        decreases v.len() - i,
    {
        r.push(v[i].clone());
        i = i + 1;
    }
    assert(v@.take(v.len() as int) =~= v@);
    r
}

} // verus!

verus! {

/// An owned copy of a string slice.
pub fn owned(s: &str) -> (r: String)
    ensures
        r@ == s@,
{
    s.to_owned()
}

} // verus!

verus! {

/// Appends `item` to `list` unless an equal string is already there (the
/// related images of a reference image, the bots that observed a change).
pub fn push_unique(list: &mut Vec<String>, item: &str)
    ensures
        views(old(list)@).contains(item@) ==> final(list)@ == old(list)@,
        !views(old(list)@).contains(item@) ==> views(final(list)@) == views(old(list)@).push(
            item@,
        ),
{
    if !contains_str(list, item) {
        let ghost before = list@;
        list.push(owned(item));
        assert(views(list@) =~= views(before).push(item@));
    }
}

/// `push_unique` never introduces a duplicate: a list of distinct strings
/// stays distinct.
pub proof fn lemma_push_unique_keeps_distinct(before: Seq<Seq<char>>, id: Seq<char>)
    requires
        before.no_duplicates(),
    ensures
        (if before.contains(id) {
            before
        } else {
            before.push(id)
        }).no_duplicates(),
{
    if !before.contains(id) {
        let after = before.push(id);
        assert forall|i: int, j: int| 0 <= i < after.len() && 0 <= j < after.len() && i != j implies after[i]
            != after[j] by {
            if i == before.len() as int {
                assert(before[j] == after[j]);
            } else if j == before.len() as int {
                assert(before[i] == after[i]);
            }
        }
    }
}

} // verus!
