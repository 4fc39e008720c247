use vstd::prelude::*;

verus! {

/// The characters of each string of `v`.
pub open spec fn strings_view(v: Seq<String>) -> Seq<Seq<char>> {
    v.map_values(|s: String| s@)
}

/// A copy of `v`.
pub fn clone_strings(v: &Vec<String>) -> (copy: Vec<String>)
    ensures
        strings_view(copy@) == strings_view(v@),
{
    let mut copy: Vec<String> = Vec::new();
    let mut i: usize = 0;
    while i < v.len()
        invariant
            i <= v@.len(),
            copy@.len() == i,
            forall|j: int| 0 <= j < i ==> copy@[j]@ == v@[j]@,
        decreases v@.len() - i,
    {
        copy.push(v[i].clone());
        i = i + 1;
    }
    assert(strings_view(copy@) =~= strings_view(v@));
    copy
}

/// Whether `a` and `b` hold the same strings in the same order.
pub fn same_strings(a: &Vec<String>, b: &Vec<String>) -> (same: bool)
    ensures
        same == (strings_view(a@) == strings_view(b@)),
{
    if a.len() != b.len() {
        assert(strings_view(a@).len() != strings_view(b@).len());
        return false;
    }
    let mut i: usize = 0;
    while i < a.len()
        invariant
            a@.len() == b@.len(),
            i <= a@.len(),
            forall|j: int| 0 <= j < i ==> a@[j]@ == b@[j]@,
        decreases a@.len() - i,
    {
        if !(a[i] == b[i]) {
            assert(strings_view(a@)[i as int] != strings_view(b@)[i as int]);
            return false;
        }
        i = i + 1;
    }
    assert(strings_view(a@) =~= strings_view(b@));
    true
}

/// The strings of `a`, in order, that also occur in `b`.
pub open spec fn keep_common(a: Seq<Seq<char>>, b: Seq<Seq<char>>) -> Seq<Seq<char>>
    decreases a.len(),
{
    if a.len() == 0 {
        Seq::empty()
    } else {
        let rest = keep_common(a.drop_last(), b);
        if b.contains(a.last()) {
            rest.push(a.last())
        } else {
            rest
        }
    }
}

/// What `keep_common` keeps occurs in both sequences.
pub proof fn lemma_keep_common_is_common(a: Seq<Seq<char>>, b: Seq<Seq<char>>)
    ensures
        forall|i: int|
            0 <= i < keep_common(a, b).len() ==> a.contains(#[trigger] keep_common(a, b)[i])
                && b.contains(keep_common(a, b)[i]),
    decreases a.len(),
{
    if a.len() > 0 {
        lemma_keep_common_is_common(a.drop_last(), b);
        let rest = keep_common(a.drop_last(), b);
        assert forall|i: int| 0 <= i < keep_common(a, b).len() implies a.contains(
            #[trigger] keep_common(a, b)[i],
        ) && b.contains(keep_common(a, b)[i]) by {
            if i < rest.len() {
                let x = rest[i];
                assert(a.drop_last().contains(x));
                let k = choose|k: int| 0 <= k < a.drop_last().len() && a.drop_last()[k] == x;
                assert(a[k] == x);
            } else {
                assert(a[a.len() - 1] == a.last());
            }
        }
    }
}

/// Whatever occurs in both sequences is kept.
pub proof fn lemma_keep_common_keeps(a: Seq<Seq<char>>, b: Seq<Seq<char>>, x: Seq<char>)
    requires
        a.contains(x),
        b.contains(x),
    ensures
        keep_common(a, b).contains(x),
    decreases a.len(),
{
    let rest = keep_common(a.drop_last(), b);
    if a.last() == x {
        assert(keep_common(a, b) == rest.push(x));
        assert(keep_common(a, b)[rest.len() as int] == x);
    } else {
        let k = choose|k: int| 0 <= k < a.len() && a[k] == x;
        assert(k < a.len() - 1);
        assert(a.drop_last()[k] == x);
        lemma_keep_common_keeps(a.drop_last(), b, x);
        let j = choose|j: int| 0 <= j < rest.len() && rest[j] == x;
        if b.contains(a.last()) {
            assert(keep_common(a, b)[j] == x);
        }
    }
}

/// Keeping what also occurs in a sequence that holds every element keeps all.
pub proof fn lemma_keep_common_of_superset(a: Seq<Seq<char>>, b: Seq<Seq<char>>)
    requires
        forall|i: int| 0 <= i < a.len() ==> b.contains(#[trigger] a[i]),
    ensures
        keep_common(a, b) == a,
    decreases a.len(),
{
    if a.len() > 0 {
        assert(b.contains(a[a.len() - 1]));
        assert forall|i: int| 0 <= i < a.drop_last().len() implies b.contains(#[trigger] a.drop_last()[i]) by {
            assert(a.drop_last()[i] == a[i]);
        }
        lemma_keep_common_of_superset(a.drop_last(), b);
        assert(a.drop_last().push(a.last()) =~= a);
    }
}

/// Whether `v` holds a string with the characters of `s`.
pub fn contains_string(v: &Vec<String>, s: &String) -> (found: bool)
    ensures
        found == strings_view(v@).contains(s@),
{
    let mut i: usize = 0;
    while i < v.len()
        invariant
            i <= v@.len(),
            forall|j: int| 0 <= j < i ==> v@[j]@ != s@,
        decreases v@.len() - i,
    {
        if v[i] == *s {
            assert(strings_view(v@)[i as int] == s@);
            return true;
        }
        i = i + 1;
    }
    proof {
        if strings_view(v@).contains(s@) {
            let k = choose|k: int| 0 <= k < strings_view(v@).len() && strings_view(v@)[k] == s@;
            assert(v@[k]@ == s@);
        }
    }
    false
}

/// The strings of `a`, in order, that also occur in `b`.
pub fn common_strings(a: &Vec<String>, b: &Vec<String>) -> (common: Vec<String>)
    ensures
        strings_view(common@) == keep_common(strings_view(a@), strings_view(b@)),
{
    let mut common: Vec<String> = Vec::new();
    let mut i: usize = 0;
    while i < a.len()
        invariant
            i <= a@.len(),
            strings_view(common@) == keep_common(strings_view(a@).take(i as int), strings_view(b@)),
        decreases a@.len() - i,
    {
        let ghost before = common@;
        assert(strings_view(a@).take(i + 1).drop_last() =~= strings_view(a@).take(i as int));
        assert(strings_view(a@).take(i + 1).last() == a@[i as int]@);
        if contains_string(b, &a[i]) {
            common.push(a[i].clone());
            assert(strings_view(common@) =~= strings_view(before).push(a@[i as int]@));
        }
        i = i + 1;
    }
    assert(strings_view(a@).take(a@.len() as int) =~= strings_view(a@));
    common
}

} // verus!
