//! Association lists: a sequence of `(name, value)` pairs read as a map in
//! which a later pair overrides an earlier pair of the same name.

use vstd::prelude::*;

verus! {

/// The map a sequence of pairs stands for.
pub open spec fn assoc_map<W>(s: Seq<(Seq<char>, W)>) -> Map<Seq<char>, W>
    decreases s.len(),
{
    if s.len() == 0 {
        Map::empty()
    } else {
        assoc_map(s.drop_last()).insert(s.last().0, s.last().1)
    }
}

/// `i` is the place of the last pair named `k`.
pub open spec fn is_last_index<W>(s: Seq<(Seq<char>, W)>, k: Seq<char>, i: int) -> bool {
    &&& 0 <= i < s.len()
    &&& s[i].0 == k
    &&& forall|j: int| i < j < s.len() ==> (#[trigger] s[j]).0 != k
}

/// No pair is named `k`.
pub open spec fn is_absent<W>(s: Seq<(Seq<char>, W)>, k: Seq<char>) -> bool {
    forall|j: int| 0 <= j < s.len() ==> (#[trigger] s[j]).0 != k
}

/// A name that no pair carries is not in the map.
pub proof fn lemma_assoc_absent<W>(s: Seq<(Seq<char>, W)>, k: Seq<char>)
    requires
        is_absent(s, k),
    ensures
        !assoc_map(s).dom().contains(k),
    decreases s.len(),
{
    if s.len() > 0 {
        let t = s.drop_last();
        lemma_assoc_absent(t, k);
    }
}

/// The map sends a name to the value of the last pair that carries it.
pub proof fn lemma_assoc_found<W>(s: Seq<(Seq<char>, W)>, k: Seq<char>, i: int)
    requires
        is_last_index(s, k, i),
    ensures
        assoc_map(s).dom().contains(k),
        assoc_map(s)[k] == s[i].1,
    decreases s.len(),
{
    let t = s.drop_last();
    if i == s.len() - 1 {
    } else {
        lemma_assoc_found(t, k, i);
    }
}

/// Whether a name is in the map, said over the pairs.
pub proof fn lemma_assoc_dom<W>(s: Seq<(Seq<char>, W)>, k: Seq<char>)
    ensures
        assoc_map(s).dom().contains(k) <==> exists|j: int| 0 <= j < s.len() && (#[trigger] s[j]).0 == k,
    decreases s.len(),
{
    if s.len() > 0 {
        let t = s.drop_last();
        lemma_assoc_dom(t, k);
        if assoc_map(s).dom().contains(k) {
            if s.last().0 == k {
            } else {
                let j = choose|j: int| 0 <= j < t.len() && (#[trigger] t[j]).0 == k;
            }
        }
        if exists|j: int| 0 <= j < s.len() && (#[trigger] s[j]).0 == k {
            let j = choose|j: int| 0 <= j < s.len() && (#[trigger] s[j]).0 == k;
            if j < s.len() - 1 {
                assert(t[j] == s[j]);
            }
        }
    }
}

/// Appending a pair inserts it into the map.
pub proof fn lemma_assoc_push<W>(s: Seq<(Seq<char>, W)>, k: Seq<char>, w: W)
    ensures
        assoc_map(s.push((k, w))) == assoc_map(s).insert(k, w),
{
    assert(s.push((k, w)).drop_last() =~= s);
}

/// Replacing the value of the last pair of a name inserts the new value
/// into the map.
pub proof fn lemma_assoc_update<W>(s: Seq<(Seq<char>, W)>, k: Seq<char>, i: int, w: W)
    requires
        is_last_index(s, k, i),
    ensures
        assoc_map(s.update(i, (k, w))) == assoc_map(s).insert(k, w),
    decreases s.len(),
{
    let u = s.update(i, (k, w));
    let t = s.drop_last();
    if i == s.len() - 1 {
        assert(u.drop_last() =~= t);
    } else {
        lemma_assoc_update(t, k, i, w);
        assert(u.drop_last() =~= t.update(i, (k, w)));
    }
}

/// The place of the last pair named `name`, if there is one.
pub fn find_last<V>(v: &Vec<(String, V)>, name: &String) -> (r: Option<usize>)
    ensures
        match r {
            Some(i) => i < v@.len() && v@[i as int].0@ == name@ && forall|j: int|
                i < j < v@.len() ==> (#[trigger] v@[j]).0@ != name@,
            None => forall|j: int| 0 <= j < v@.len() ==> (#[trigger] v@[j]).0@ != name@,
        },
{
    let mut i: usize = v.len();
    while i > 0
        invariant
            i <= v.len(),
            forall|j: int| i <= j < v@.len() ==> (#[trigger] v@[j]).0@ != name@,
        decreases i,
    {
        i = i - 1;
        if v[i].0 == *name {
            return Some(i);
        }
    }
    None
}

} // verus!
