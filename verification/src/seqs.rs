//! Sequences with their repeats taken out, first occurrence kept: the section lists and the
//! command-line vocabulary are built that way from the tables they come from.
use vstd::prelude::*;
use crate::text::str_eq;

verus! {

/// `s` with every element after its first occurrence dropped, order kept.
pub open spec fn dedup<A>(s: Seq<A>) -> Seq<A>
    decreases s.len(),
{
    if s.len() == 0 {
        Seq::empty()
    } else {
        let d = dedup(s.drop_last());
        if d.contains(s.last()) { d } else { d.push(s.last()) }
    }
}

/// No element occurs twice.
pub open spec fn distinct<A>(s: Seq<A>) -> bool {
    forall|i: int, j: int| 0 <= i < j < s.len() ==> s[i] != s[j]
}

/// Taking the repeats out leaves every element once: nothing is lost and nothing is doubled.
pub proof fn dedup_keeps_each_element_once<A>(s: Seq<A>)
    ensures
        distinct(dedup(s)),
        forall|x: A| dedup(s).contains(x) <==> s.contains(x),
    decreases s.len(),
{
    if s.len() > 0 {
        dedup_keeps_each_element_once(s.drop_last());
        let d = dedup(s.drop_last());
        assert forall|x: A| dedup(s).contains(x) <==> s.contains(x) by {
            let p = d.push(s.last());
            assert(p[p.len() - 1] == s.last());
            if d.contains(x) {
                let k = d.index_of(x);
                assert(p[k] == x);
            }
            if s.contains(x) {
                let k = s.index_of(x);
                if k < s.len() - 1 {
                    assert(s.drop_last()[k] == x);
                    assert(s.drop_last().contains(x));
                } else {
                    assert(x == s.last());
                }
            }
            if s.drop_last().contains(x) {
                let k = s.drop_last().index_of(x);
                assert(s[k] == x);
            }
            if p.contains(x) && x != s.last() {
                let k = p.index_of(x);
                assert(d[k] == x);
            }
            assert(x == s.last() ==> s[s.len() - 1] == x);
        }
        if !d.contains(s.last()) {
            assert forall|i: int, j: int| 0 <= i < j < d.push(s.last()).len() implies
                d.push(s.last())[i] != d.push(s.last())[j] by {
                if j == d.len() {
                    assert(d[i] != s.last());
                }
            }
        }
    }
}

/// The string slices of `s`, as character sequences.
pub open spec fn views(s: Seq<&str>) -> Seq<Seq<char>> {
    s.map_values(|x: &str| x@)
}

/// Whether a slice with the characters `x` is in `names`.
pub fn contains_str(names: &Vec<&str>, x: &str) -> (r: bool)
    ensures
        r == views(names@).contains(x@),
{
    let mut i: usize = 0;
    while i < names.len()
        invariant
            i <= names.len(),
            forall|j: int| 0 <= j < i ==> names@[j]@ != x@,
        decreases names.len() - i,
    {
        if str_eq(names[i], x) {
            assert(views(names@)[i as int] == x@);
            return true;
        }
        i = i + 1;
    }
    assert forall|j: int| 0 <= j < views(names@).len() implies views(names@)[j] != x@ by {}
    false
}

/// `names` with their repeats taken out, first occurrence kept.
pub fn dedup_strs(names: &Vec<&'static str>) -> (r: Vec<&'static str>)
    ensures
        views(r@) == dedup(views(names@)),
{
    let mut out: Vec<&'static str> = Vec::new();
    let mut i: usize = 0;
    while i < names.len()
        invariant
            i <= names.len(),
            views(out@) == dedup(views(names@).take(i as int)),
        decreases names.len() - i,
    {
        let ghost t = views(names@).take(i + 1);
        assert(t.drop_last() =~= views(names@).take(i as int));
        assert(t.last() == names@[i as int]@);
        if !contains_str(&out, names[i]) {
            out.push(names[i]);
            assert(views(out@) =~= dedup(t));
        } else {
            assert(views(out@) =~= dedup(t));
        }
        i = i + 1;
    }
    assert(views(names@).take(names.len() as int) =~= views(names@));
    out
}

} // verus!
