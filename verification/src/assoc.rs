//! String-keyed association lists: the form of every name-keyed
//! table in this crate. Lookup finds the entry for a key,
//! and insertion replaces the entry of an existing key in place
//! (keys stay unique), so a later entry for the same generated name
//! wins, as the synthesis rules ask.

use vstd::prelude::*;
use crate::strutil::str_eq;

verus! {

/// The view of a vector of key/value pairs: key views beside value views.
pub open spec fn pairs_view<EV: View>(v: Seq<(String, EV)>) -> Seq<(Seq<char>, EV::V)> {
    Seq::new(v.len(), |i: int| (v[i].0@, v[i].1@))
}

/// The value stored under `k`, if any: the first entry with that key.
pub open spec fn assoc_get<V>(m: Seq<(Seq<char>, V)>, k: Seq<char>) -> Option<V>
    decreases m.len(),
{
    if m.len() == 0 {
        None
    } else if m[0].0 == k {
        Some(m[0].1)
    } else {
        assoc_get(m.drop_first(), k)
    }
}

/// Insertion that keeps keys unique: an entry with the same key is
/// replaced where it stands, a new key goes to the end.
pub open spec fn assoc_insert<V>(m: Seq<(Seq<char>, V)>, k: Seq<char>, v: V) -> Seq<(Seq<char>,
    V,
)>
    decreases m.len(),
{
    if m.len() == 0 {
        seq![(k, v)]
    } else if m[0].0 == k {
        seq![(k, v)] + m.drop_first()
    } else {
        seq![m[0]] + assoc_insert(m.drop_first(), k, v)
    }
}

pub proof fn lemma_assoc_get_at<V>(m: Seq<(Seq<char>, V)>, k: Seq<char>, i: int)
    requires
        0 <= i < m.len(),
        m[i].0 == k,
        forall|j: int| 0 <= j < i ==> (#[trigger] m[j].0) != k,
    ensures
        assoc_get(m, k) == Some(m[i].1),
    decreases m.len(),
{
    if i > 0 {
        lemma_assoc_get_at(m.drop_first(), k, i - 1);
    }
}

pub proof fn lemma_assoc_get_none<V>(m: Seq<(Seq<char>, V)>, k: Seq<char>)
    requires
        forall|j: int| 0 <= j < m.len() ==> (#[trigger] m[j].0) != k,
    ensures
        assoc_get(m, k) is None,
    decreases m.len(),
{
    if m.len() > 0 {
        lemma_assoc_get_none(m.drop_first(), k);
    }
}

pub proof fn lemma_assoc_insert_at<V>(m: Seq<(Seq<char>, V)>, k: Seq<char>, v: V, i: int)
    requires
        0 <= i < m.len(),
        m[i].0 == k,
        forall|j: int| 0 <= j < i ==> (#[trigger] m[j].0) != k,
    ensures
        assoc_insert(m, k, v) == m.update(i, (k, v)),
    decreases m.len(),
{
    if i == 0 {
        assert(seq![(k, v)] + m.drop_first() =~= m.update(0, (k, v)));
    } else {
        lemma_assoc_insert_at(m.drop_first(), k, v, i - 1);
        assert(seq![m[0]] + m.drop_first().update(i - 1, (k, v)) =~= m.update(i, (k, v)));
    }
}

pub proof fn lemma_assoc_insert_none<V>(m: Seq<(Seq<char>, V)>, k: Seq<char>, v: V)
    requires
        forall|j: int| 0 <= j < m.len() ==> (#[trigger] m[j].0) != k,
    ensures
        assoc_insert(m, k, v) == m.push((k, v)),
    decreases m.len(),
{
    if m.len() == 0 {
        assert(seq![(k, v)] =~= m.push((k, v)));
    } else {
        lemma_assoc_insert_none(m.drop_first(), k, v);
        assert(seq![m[0]] + m.drop_first().push((k, v)) =~= m.push((k, v)));
    }
}

/// Looks the key up in the vector, first entry wins.
pub fn assoc_vec_get<'a, EV: View>(m: &'a Vec<(String, EV)>, k: &str) -> (r: Option<&'a EV>)
    ensures
        (match r {
            Some(v) => assoc_get(pairs_view(m@), k@) == Some(v@),
            None => assoc_get(pairs_view(m@), k@) is None,
        }),
{
    let mut i: usize = 0;
    while i < m.len()
        invariant
            i <= m@.len(),
            forall|j: int| 0 <= j < i ==> (#[trigger] pairs_view(m@)[j].0) != k@,
        decreases m@.len() - i,
    {
        if str_eq(m[i].0.as_str(), k) {
            proof {
                lemma_assoc_get_at(pairs_view(m@), k@, i as int);
            }
            return Some(&m[i].1);
        }
        i = i + 1;
    }
    proof {
        lemma_assoc_get_none(pairs_view(m@), k@);
    }
    None
}

/// Inserts, replacing in place any entry that carries the same key.
pub fn assoc_vec_insert<EV: View>(m: &mut Vec<(String, EV)>, k: String, v: EV)
    ensures
        pairs_view(final(m)@) == assoc_insert(pairs_view(old(m)@), k@, v@),
{
    let mut i: usize = 0;
    while i < m.len()
        invariant
            i <= m@.len(),
            m@ == old(m)@,
            forall|j: int| 0 <= j < i ==> (#[trigger] pairs_view(m@)[j].0) != k@,
        decreases m@.len() - i,
    {
        if str_eq(m[i].0.as_str(), k.as_str()) {
            proof {
                lemma_assoc_insert_at(pairs_view(m@), k@, v@, i as int);
            }
            m[i] = (k, v);
            proof {
                assert(pairs_view(m@) =~= assoc_insert(pairs_view(old(m)@), k@, v@));
            }
            return ;
        }
        i = i + 1;
    }
    proof {
        lemma_assoc_insert_none(pairs_view(m@), k@, v@);
    }
    m.push((k, v));
    proof {
        assert(pairs_view(m@) =~= pairs_view(old(m)@).push((k@, v@)));
    }
}

} // verus!
