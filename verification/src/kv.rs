use vstd::prelude::*;

verus! {

/// The finite map that a sequence of key/value pairs denotes; a later pair
/// shadows an earlier one with the same key.
pub open spec fn pairs_to_map<V>(s: Seq<(Seq<char>, V)>) -> Map<Seq<char>, V>
    decreases s.len(),
{
    if s.len() == 0 {
        Map::empty()
    } else {
        pairs_to_map(s.drop_last()).insert(s.last().0, s.last().1)
    }
}

/// No two pairs carry the same key.
pub open spec fn unique_keys<V>(s: Seq<(Seq<char>, V)>) -> bool {
    forall|i: int, j: int|
        0 <= i < s.len() && 0 <= j < s.len() && i != j ==> s[i].0 != s[j].0
}

/// A key is in the denoted map exactly when some pair carries it.
pub proof fn lemma_pairs_to_map_domain<V>(s: Seq<(Seq<char>, V)>, k: Seq<char>)
    ensures
        pairs_to_map(s).contains_key(k) <==> exists|i: int| 0 <= i < s.len() && s[i].0 == k,
    decreases s.len(),
{
    if s.len() > 0 {
        lemma_pairs_to_map_domain(s.drop_last(), k);
        if s.last().0 == k {
            assert(s[s.len() - 1].0 == k);
        } else {
            if pairs_to_map(s).contains_key(k) {
                let i = choose|i: int|
                    0 <= i < s.drop_last().len() && s.drop_last()[i].0 == k;
                assert(s[i].0 == k);
            }
            if exists|i: int| 0 <= i < s.len() && s[i].0 == k {
                let i = choose|i: int| 0 <= i < s.len() && s[i].0 == k;
                assert(s.drop_last()[i].0 == k);
            }
        }
    }
}

/// Under unique keys, the pair at any index gives the denoted map's value at
/// its key.
pub proof fn lemma_pairs_to_map_index<V>(s: Seq<(Seq<char>, V)>, i: int)
    requires
        unique_keys(s),
        0 <= i < s.len(),
    ensures
        pairs_to_map(s).contains_key(s[i].0),
        pairs_to_map(s)[s[i].0] == s[i].1,
    decreases s.len(),
{
    if i < s.len() - 1 {
        assert(unique_keys(s.drop_last())) by {
            assert forall|x: int, y: int|
                0 <= x < s.drop_last().len() && 0 <= y < s.drop_last().len() && x != y implies s
                .drop_last()[x].0 != s.drop_last()[y].0 by {
                assert(s[x].0 == s.drop_last()[x].0);
                assert(s[y].0 == s.drop_last()[y].0);
            }
        }
        lemma_pairs_to_map_index(s.drop_last(), i);
        assert(s.last().0 != s[i].0);
    }
}

/// The pair at the last index that carries a key gives the denoted map's
/// value at that key.
pub proof fn lemma_pairs_to_map_last_match<V>(s: Seq<(Seq<char>, V)>, i: int)
    requires
        0 <= i < s.len(),
        forall|j: int| i < j < s.len() ==> s[j].0 != s[i].0,
    ensures
        pairs_to_map(s).contains_key(s[i].0),
        pairs_to_map(s)[s[i].0] == s[i].1,
    decreases s.len(),
{
    if i < s.len() - 1 {
        assert(s.drop_last()[i] == s[i]);
        assert forall|j: int| i < j < s.drop_last().len() implies s.drop_last()[j].0 != s
            .drop_last()[i].0 by {
            assert(s[j].0 != s[i].0);
        }
        lemma_pairs_to_map_last_match(s.drop_last(), i);
        assert(s.last().0 != s[i].0);
    }
}

/// Appending a pair denotes inserting it into the map.
pub proof fn lemma_pairs_to_map_push<V>(s: Seq<(Seq<char>, V)>, k: Seq<char>, v: V)
    ensures
        pairs_to_map(s.push((k, v))) == pairs_to_map(s).insert(k, v),
{
    assert(s.push((k, v)).drop_last() =~= s);
    assert(s.push((k, v)).last() == (k, v));
}

/// Under unique keys, replacing the value at one index denotes inserting the
/// new value at that pair's key.
pub proof fn lemma_pairs_to_map_update<V>(s: Seq<(Seq<char>, V)>, i: int, v: V)
    requires
        unique_keys(s),
        0 <= i < s.len(),
    ensures
        pairs_to_map(s.update(i, (s[i].0, v))) == pairs_to_map(s).insert(s[i].0, v),
    decreases s.len(),
{
    let k = s[i].0;
    let t = s.update(i, (k, v));
    if i == s.len() - 1 {
        assert(t.drop_last() =~= s.drop_last());
        assert(t.last() == (k, v));
        assert(pairs_to_map(s.drop_last()).insert(k, s[i].1).insert(k, v) =~= pairs_to_map(
            s.drop_last(),
        ).insert(k, v));
    } else {
        assert(unique_keys(s.drop_last())) by {
            assert forall|x: int, y: int|
                0 <= x < s.drop_last().len() && 0 <= y < s.drop_last().len() && x != y implies s
                .drop_last()[x].0 != s.drop_last()[y].0 by {
                assert(s[x].0 == s.drop_last()[x].0);
                assert(s[y].0 == s.drop_last()[y].0);
            }
        }
        lemma_pairs_to_map_update(s.drop_last(), i, v);
        assert(t.drop_last() =~= s.drop_last().update(i, (k, v)));
        assert(t.last() == s.last());
        assert(s.last().0 != k);
        assert(pairs_to_map(s.drop_last()).insert(k, v).insert(s.last().0, s.last().1)
            =~= pairs_to_map(s.drop_last()).insert(s.last().0, s.last().1).insert(k, v));
    }
}

} // verus!
