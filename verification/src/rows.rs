//! Building key-value rows from grouped values.
//!
//! A map-like listing of groups — each a key with its values — is flattened
//! into rows of (key, value) pairs, in order: each group contributes one row
//! per value, every row carrying the group's key. The surrounding program
//! turns the rows into a two-column frame named `key` and `value`.

use vstd::prelude::*;

verus! {

/// One group flattened: each value paired with the group's key, in order.
pub open spec fn group_rows<V>(key: Seq<char>, values: Seq<V>) -> Seq<(Seq<char>, V)> {
    Seq::new(values.len(), |i: int| (key, values[i]))
}

/// All groups flattened, in order.
pub open spec fn flat_rows<V>(groups: Seq<(Seq<char>, Seq<V>)>) -> Seq<(Seq<char>, V)>
    decreases groups.len(),
{
    if groups.len() == 0 {
        Seq::empty()
    } else {
        flat_rows(groups.drop_last()) + group_rows(groups.last().0, groups.last().1)
    }
}

/// The groups a listing of keyed value vectors stands for.
pub open spec fn groups_view<V>(vals: Seq<(String, Vec<V>)>) -> Seq<(Seq<char>, Seq<V>)> {
    Seq::new(vals.len(), |i: int| (vals[i].0@, vals[i].1@))
}

/// The flattened pairs a row vector stands for.
pub open spec fn rows_view<V>(rows: Seq<(String, V)>) -> Seq<(Seq<char>, V)> {
    Seq::new(rows.len(), |i: int| (rows[i].0@, rows[i].1))
}

proof fn lemma_flat_rows_take_succ<V>(groups: Seq<(Seq<char>, Seq<V>)>, i: int)
    requires
        0 <= i < groups.len(),
    ensures
        flat_rows(groups.take(i + 1)) == flat_rows(groups.take(i)) + group_rows(
            groups[i].0,
            groups[i].1,
        ),
{
    assert(groups.take(i + 1).drop_last() =~= groups.take(i));
    assert(groups.take(i + 1).last() == groups[i]);
}

/// Flatten keyed groups of values into key-value rows: each group contributes
/// one row per value, in order, all carrying the group's key.
pub fn from_map<V: Copy>(vals: &Vec<(String, Vec<V>)>) -> (rows: Vec<(String, V)>)
    ensures
        rows_view(rows@) == flat_rows(groups_view(vals@)),
{
    let ghost all = groups_view(vals@);
    let mut rows: Vec<(String, V)> = Vec::new();
    proof {
        assert(rows_view(rows@) =~= flat_rows(all.take(0)));
    }
    let mut gi: usize = 0;
    while gi < vals.len()
        invariant
            gi <= vals@.len(),
            all == groups_view(vals@),
            rows_view(rows@) == flat_rows(all.take(gi as int)),
        decreases vals@.len() - gi,
    {
        let group = &vals[gi];
        let mut vi: usize = 0;
        while vi < group.1.len()
            invariant
                gi < vals@.len(),
                vi <= group.1@.len(),
                all == groups_view(vals@),
                group == vals@[gi as int],
                rows_view(rows@) == flat_rows(all.take(gi as int)) + group_rows(
                    group.0@,
                    group.1@.take(vi as int),
                ),
            decreases group.1@.len() - vi,
        {
            let key = group.0.clone();
            let value = group.1[vi];
            let ghost prev = rows@;
            let ghost kview = key@;
            rows.push((key, value));
            proof {
                let flat = flat_rows(all.take(gi as int));
                let target = flat + group_rows(group.0@, group.1@.take(vi + 1));
                assert(kview == group.0@);
                assert(rows@ =~= prev.push((rows@[prev.len() as int])));
                assert(rows@.len() == prev.len() + 1);
                assert(rows_view(rows@).len() == rows@.len());
                assert(group_rows(group.0@, group.1@.take(vi as int)).len() == vi as int);
                assert(rows_view(prev).len() == prev.len());
                assert(prev.len() == flat.len() + vi);
                assert(target.len() == flat.len() + vi + 1);
                assert(rows_view(rows@).len() == target.len());
                assert forall|j: int| 0 <= j < target.len() implies rows_view(rows@)[j]
                    == target[j] by {
                    if j < prev.len() {
                        assert(rows@[j] == prev[j]);
                        assert(rows_view(prev)[j] == (flat + group_rows(
                            group.0@,
                            group.1@.take(vi as int),
                        ))[j]);
                        if j < flat.len() {
                            assert(target[j] == flat[j]);
                        } else {
                            assert(target[j] == (group.0@, group.1@.take(vi + 1)[j - flat.len()]));
                            assert(group.1@.take(vi + 1)[j - flat.len()] == group.1@[j
                                - flat.len()]);
                            assert(group.1@.take(vi as int)[j - flat.len()] == group.1@[j
                                - flat.len()]);
                        }
                    } else {
                        assert(rows_view(rows@)[j] == (rows@[j].0@, rows@[j].1));
                        assert(rows@[j].0@ == kview);
                        assert(target[j] == (group.0@, group.1@[vi as int]));
                    }
                }
                assert(rows_view(rows@) =~= target);
            }
            vi = vi + 1;
        }
        proof {
            assert(group.1@.take(group.1@.len() as int) =~= group.1@);
            lemma_flat_rows_take_succ(all, gi as int);
            assert(rows_view(rows@) == flat_rows(all.take(gi + 1)));
        }
        gi = gi + 1;
    }
    proof {
        assert(all.take(vals@.len() as int) =~= all);
    }
    rows
}

/// Flatten keyed groups of string values into key-value rows, as `from_map`
/// does for copyable values.
pub fn from_string_map(vals: &Vec<(String, Vec<String>)>) -> (rows: Vec<(String, String)>)
    ensures
        rows_view_deep(rows@) == flat_rows(groups_view_deep(vals@)),
{
    let ghost all = groups_view_deep(vals@);
    let mut rows: Vec<(String, String)> = Vec::new();
    proof {
        assert(rows_view_deep(rows@) =~= flat_rows(all.take(0)));
    }
    let mut gi: usize = 0;
    while gi < vals.len()
        invariant
            gi <= vals@.len(),
            all == groups_view_deep(vals@),
            rows_view_deep(rows@) == flat_rows(all.take(gi as int)),
        decreases vals@.len() - gi,
    {
        let group = &vals[gi];
        let mut vi: usize = 0;
        while vi < group.1.len()
            invariant
                gi < vals@.len(),
                vi <= group.1@.len(),
                all == groups_view_deep(vals@),
                group == vals@[gi as int],
                rows_view_deep(rows@) == flat_rows(all.take(gi as int)) + group_rows(
                    group.0@,
                    group.1.deep_view().take(vi as int),
                ),
            decreases group.1@.len() - vi,
        {
            let key = group.0.clone();
            let value = group.1[vi].clone();
            let ghost prev = rows@;
            let ghost kview = key@;
            let ghost vview = value@;
            rows.push((key, value));
            proof {
                let flat = flat_rows(all.take(gi as int));
                let dv = group.1.deep_view();
                let target = flat + group_rows(group.0@, dv.take(vi + 1));
                assert(kview == group.0@);
                assert(vview == group.1@[vi as int]@);
                assert(vview == dv[vi as int]);
                assert(rows@ =~= prev.push((rows@[prev.len() as int])));
                assert(rows@.len() == prev.len() + 1);
                assert(rows_view_deep(rows@).len() == rows@.len());
                assert(group_rows(group.0@, dv.take(vi as int)).len() == vi as int);
                assert(rows_view_deep(prev).len() == prev.len());
                assert(prev.len() == flat.len() + vi);
                assert(target.len() == flat.len() + vi + 1);
                assert(rows_view_deep(rows@).len() == target.len());
                assert forall|j: int| 0 <= j < target.len() implies rows_view_deep(rows@)[j]
                    == target[j] by {
                    if j < prev.len() {
                        assert(rows@[j] == prev[j]);
                        assert(rows_view_deep(prev)[j] == (flat + group_rows(
                            group.0@,
                            dv.take(vi as int),
                        ))[j]);
                        if j < flat.len() {
                            assert(target[j] == flat[j]);
                        } else {
                            assert(target[j] == (group.0@, dv.take(vi + 1)[j - flat.len()]));
                            assert(dv.take(vi + 1)[j - flat.len()] == dv[j - flat.len()]);
                            assert(dv.take(vi as int)[j - flat.len()] == dv[j - flat.len()]);
                        }
                    } else {
                        assert(rows_view_deep(rows@)[j] == (rows@[j].0@, rows@[j].1@));
                        assert(rows@[j].0@ == kview);
                        assert(rows@[j].1@ == vview);
                        assert(target[j] == (group.0@, dv[vi as int]));
                    }
                }
                assert(rows_view_deep(rows@) =~= target);
            }
            vi = vi + 1;
        }
        proof {
            assert(group.1.deep_view().take(group.1@.len() as int) =~= group.1.deep_view());
            lemma_flat_rows_take_succ(all, gi as int);
            assert(rows_view_deep(rows@) == flat_rows(all.take(gi + 1)));
        }
        gi = gi + 1;
    }
    proof {
        assert(all.take(vals@.len() as int) =~= all);
    }
    rows
}

/// The groups a listing of string-valued groups stands for.
pub open spec fn groups_view_deep(vals: Seq<(String, Vec<String>)>) -> Seq<
    (Seq<char>, Seq<Seq<char>>),
> {
    Seq::new(vals.len(), |i: int| (vals[i].0@, vals[i].1.deep_view()))
}

/// The flattened pairs a string row vector stands for.
pub open spec fn rows_view_deep(rows: Seq<(String, String)>) -> Seq<(Seq<char>, Seq<char>)> {
    Seq::new(rows.len(), |i: int| (rows[i].0@, rows[i].1@))
}

} // verus!
