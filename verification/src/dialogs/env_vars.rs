//! Environment variable rows of the connection form: the sorted rows shown for a
//! variable map, and the map that edited rows describe.

use vstd::prelude::*;

use crate::text::{
    is_blank, is_blank_chars, lemma_text_le_total, lemma_text_le_trans, str_eq, text_le, text_le_exec,
    trim, trim_chars,
};

verus! {

/// Model of a list of `(name, value)` rows.
pub type RowsView = Seq<(Seq<char>, Seq<char>)>;

/// The characters of each row.
pub open spec fn rows_view(rows: Seq<(String, String)>) -> RowsView {
    rows.map_values(|r: (String, String)| (r.0@, r.1@))
}

/// Rows ordered by name.
pub open spec fn sorted_by_name(rows: RowsView) -> bool {
    forall|i: int, j: int| 0 <= i < j < rows.len() ==> text_le(rows[i].0, rows[j].0)
}

/// The rows of an environment variable map, sorted by name.
pub fn env_map_to_rows(map: &[(String, String)]) -> (rows: Vec<(String, String)>)
    ensures
        rows@.len() == map@.len(),
        sorted_by_name(rows_view(rows@)),
        rows_view(rows@).to_multiset() == rows_view(map@).to_multiset(),
{
    let mut rows: Vec<(String, String)> = Vec::new();
    let mut i: usize = 0;
    proof {
        assert(rows_view(map@.take(0)) =~= Seq::empty());
        assert(rows_view(rows@) =~= Seq::empty());
    }
    while i < map.len()
        invariant
            i <= map@.len(),
            rows@.len() == i,
            sorted_by_name(rows_view(rows@)),
            rows_view(rows@).to_multiset() == rows_view(map@.take(i as int)).to_multiset(),
        decreases map@.len() - i,
    {
        let key = map[i].0.as_str();
        let mut p: usize = 0;
        while p < rows.len() && text_le_exec(rows[p].0.as_str(), key)
            invariant
                p <= rows@.len(),
                forall|k: int| 0 <= k < p ==> text_le(rows@[k].0@, key@),
            decreases rows@.len() - p,
        {
            p = p + 1;
        }
        let ghost before = rows_view(rows@);
        let entry = (map[i].0.clone(), map[i].1.clone());
        rows.insert(p, entry);
        proof {
            let after = rows_view(rows@);
            let e = (key@, map@[i as int].1@);
            assert(after =~= before.insert(p as int, e));
            assert forall|a: int, b: int| 0 <= a < b < after.len() implies text_le(after[a].0, after[b].0) by {
                if b == p {
                    assert(after[a] == before[a]);
                } else if a == p {
                    assert(after[b] == before[b - 1]);
                    assert(!text_le(before[p as int].0, key@));
                    lemma_text_le_total(before[p as int].0, key@);
                    if b - 1 > p {
                        lemma_text_le_trans(key@, before[p as int].0, before[b - 1].0);
                    }
                } else {
                    let a0 = if a < p { a } else { a - 1 };
                    let b0 = if b < p { b } else { b - 1 };
                    assert(after[a] == before[a0]);
                    assert(after[b] == before[b0]);
                }
            }
            before.to_multiset_ensures();
            after.to_multiset_ensures();
            assert(after.remove(p as int) =~= before);
            assert(after[p as int] == e);
            assert(after.contains(e));
            assert(after.to_multiset() =~= before.to_multiset().insert(e));
            assert(rows_view(map@.take(i + 1)) =~= rows_view(map@.take(i as int)).push(e));
            rows_view(map@.take(i as int)).to_multiset_ensures();
        }
        i = i + 1;
    }
    proof {
        assert(map@.take(i as int) =~= map@);
    }
    rows
}

/// The variable map that rows describe: rows with a blank name are left out, names
/// are trimmed, and a later row for the same name wins.
pub open spec fn rows_map(rows: RowsView) -> Map<Seq<char>, Seq<char>>
    decreases rows.len(),
{
    if rows.len() == 0 {
        Map::empty()
    } else {
        let m = rows_map(rows.drop_last());
        let r = rows.last();
        if is_blank_chars(r.0) {
            m
        } else {
            m.insert(trim_chars(r.0), r.1)
        }
    }
}

/// The map held by a list of rows with distinct names.
pub open spec fn list_map(rows: RowsView) -> Map<Seq<char>, Seq<char>> {
    Map::new(
        |k: Seq<char>| exists|i: int| 0 <= i < rows.len() && rows[i].0 == k,
        |k: Seq<char>| rows[choose|i: int| 0 <= i < rows.len() && rows[i].0 == k].1,
    )
}

/// No name occurs twice.
pub open spec fn distinct_names(rows: RowsView) -> bool {
    forall|i: int, j: int| 0 <= i < j < rows.len() ==> rows[i].0 != rows[j].0
}

proof fn lemma_list_map_update(rows: RowsView, i: int, v: Seq<char>)
    requires
        distinct_names(rows),
        0 <= i < rows.len(),
    ensures
        distinct_names(rows.update(i, (rows[i].0, v))),
        list_map(rows.update(i, (rows[i].0, v))) == list_map(rows).insert(rows[i].0, v),
{
    let r = rows.update(i, (rows[i].0, v));
    assert forall|a: int, b: int| 0 <= a < b < r.len() implies r[a].0 != r[b].0 by {
        assert(r[a].0 == rows[a].0);
        assert(r[b].0 == rows[b].0);
    }
    assert forall|k: Seq<char>| #[trigger] list_map(r).contains_key(k) <==> list_map(rows).insert(rows[i].0, v).contains_key(k) by {
        if list_map(r).contains_key(k) {
            let j = choose|j: int| 0 <= j < r.len() && r[j].0 == k;
            assert(rows[j].0 == k);
        }
        if list_map(rows).contains_key(k) {
            let j = choose|j: int| 0 <= j < rows.len() && rows[j].0 == k;
            assert(r[j].0 == k);
        }
        if k == rows[i].0 {
            assert(r[i].0 == k);
        }
    }
    assert forall|k: Seq<char>| #[trigger] list_map(r).contains_key(k) implies list_map(r)[k] == list_map(rows).insert(rows[i].0, v)[k] by {
        let j = choose|j: int| 0 <= j < r.len() && r[j].0 == k;
        if k == rows[i].0 {
            assert(j == i);
        } else {
            let j2 = choose|j2: int| 0 <= j2 < rows.len() && rows[j2].0 == k;
            assert(j == j2);
        }
    }
    assert(list_map(r) =~= list_map(rows).insert(rows[i].0, v));
}

proof fn lemma_list_map_push(rows: RowsView, k: Seq<char>, v: Seq<char>)
    requires
        distinct_names(rows),
        forall|j: int| 0 <= j < rows.len() ==> rows[j].0 != k,
    ensures
        distinct_names(rows.push((k, v))),
        list_map(rows.push((k, v))) == list_map(rows).insert(k, v),
{
    let r = rows.push((k, v));
    assert forall|a: int, b: int| 0 <= a < b < r.len() implies r[a].0 != r[b].0 by {
        assert(r[a] == rows[a]);
        if b < rows.len() {
            assert(r[b] == rows[b]);
        }
    }
    assert forall|q: Seq<char>| #[trigger] list_map(r).contains_key(q) <==> list_map(rows).insert(k, v).contains_key(q) by {
        if list_map(r).contains_key(q) {
            let j = choose|j: int| 0 <= j < r.len() && r[j].0 == q;
            if j < rows.len() {
                assert(rows[j].0 == q);
            }
        }
        if list_map(rows).contains_key(q) {
            let j = choose|j: int| 0 <= j < rows.len() && rows[j].0 == q;
            assert(r[j].0 == q);
        }
        if q == k {
            assert(r[rows.len() as int].0 == k);
        }
    }
    assert forall|q: Seq<char>| #[trigger] list_map(r).contains_key(q) implies list_map(r)[q] == list_map(rows).insert(k, v)[q] by {
        let j = choose|j: int| 0 <= j < r.len() && r[j].0 == q;
        if q == k {
            assert(j == rows.len());
        } else {
            let j2 = choose|j2: int| 0 <= j2 < rows.len() && rows[j2].0 == q;
            assert(r[j2].0 == q);
            assert(j == j2);
        }
    }
    assert(list_map(r) =~= list_map(rows).insert(k, v));
}

/// The variable map that edited rows describe, as rows with distinct names in the
/// order each name first appears.
pub fn env_rows_to_map(rows: &[(String, String)]) -> (map: Vec<(String, String)>)
    ensures
        distinct_names(rows_view(map@)),
        list_map(rows_view(map@)) == rows_map(rows_view(rows@)),
{
    let mut map: Vec<(String, String)> = Vec::new();
    let mut i: usize = 0;
    proof {
        assert(list_map(rows_view(map@)) =~= Map::empty());
        assert(rows_view(rows@.take(0)) =~= Seq::empty());
    }
    while i < rows.len()
        invariant
            i <= rows@.len(),
            distinct_names(rows_view(map@)),
            list_map(rows_view(map@)) == rows_map(rows_view(rows@.take(i as int))),
        decreases rows@.len() - i,
    {
        proof {
            assert(rows_view(rows@.take(i + 1)).drop_last() =~= rows_view(rows@.take(i as int)));
            assert(rows_view(rows@.take(i + 1)).last() == (rows@[i as int].0@, rows@[i as int].1@));
        }
        if !is_blank(rows[i].0.as_str()) {
            let key = trim(rows[i].0.as_str());
            let value = rows[i].1.clone();
            let mut p: usize = 0;
            while p < map.len() && !str_eq(map[p].0.as_str(), key.as_str())
                invariant
                    p <= map@.len(),
                    forall|k: int| 0 <= k < p ==> map@[k].0@ != key@,
                decreases map@.len() - p,
            {
                p = p + 1;
            }
            let ghost before = rows_view(map@);
            if p < map.len() {
                let name = map[p].0.clone();
                map.set(p, (name, value));
                proof {
                    assert(rows_view(map@) =~= before.update(p as int, (before[p as int].0, value@)));
                    lemma_list_map_update(before, p as int, value@);
                }
            } else {
                map.push((key, value));
                proof {
                    assert(rows_view(map@) =~= before.push((key@, value@)));
                    lemma_list_map_push(before, key@, value@);
                }
            }
        }
        i = i + 1;
    }
    proof {
        assert(rows@.take(i as int) =~= rows@);
    }
    map
}

/// Rows whose names are all non-blank and already trimmed.
pub open spec fn plain_names(rows: RowsView) -> bool {
    forall|i: int| 0 <= i < rows.len() ==> !is_blank_chars(#[trigger] rows[i].0) && trim_chars(rows[i].0) == rows[i].0
}

/// The map that rows `p`, each a row of `a`, describe: its names are those of `p`, and
/// each name maps to a value that `a` pairs with it.
proof fn lemma_rows_map_of_rows_from(a: RowsView, p: RowsView)
    requires
        plain_names(a),
        forall|j: int| 0 <= j < p.len() ==> a.contains(#[trigger] p[j]),
    ensures
        forall|k: Seq<char>| #[trigger] rows_map(p).contains_key(k) <==> exists|j: int| 0 <= j < p.len() && p[j].0 == k,
        forall|k: Seq<char>| #[trigger] rows_map(p).contains_key(k) ==> a.contains((k, rows_map(p)[k])),
    decreases p.len(),
{
    if p.len() > 0 {
        let q = p.drop_last();
        let e = p.last();
        assert forall|j: int| 0 <= j < q.len() implies a.contains(#[trigger] q[j]) by {
            assert(q[j] == p[j]);
        }
        lemma_rows_map_of_rows_from(a, q);
        assert(a.contains(p[p.len() - 1]));
        let i = choose|i: int| 0 <= i < a.len() && a[i] == e;
        assert(!is_blank_chars(a[i].0) && trim_chars(a[i].0) == a[i].0);
        assert forall|k: Seq<char>| #[trigger] rows_map(p).contains_key(k) <==> exists|j: int| 0 <= j < p.len() && p[j].0 == k by {
            if exists|j: int| 0 <= j < p.len() && p[j].0 == k {
                let j = choose|j: int| 0 <= j < p.len() && p[j].0 == k;
                if j < q.len() {
                    assert(q[j].0 == k);
                }
            }
            if rows_map(q).contains_key(k) {
                let j = choose|j: int| 0 <= j < q.len() && q[j].0 == k;
                assert(p[j].0 == k);
            }
            assert(p[p.len() - 1].0 == e.0);
        }
        assert forall|k: Seq<char>| #[trigger] rows_map(p).contains_key(k) implies a.contains((k, rows_map(p)[k])) by {
            if k == e.0 {
                assert(rows_map(p)[k] == e.1);
                assert((k, rows_map(p)[k]) == e);
            } else {
                assert(rows_map(p)[k] == rows_map(q)[k]);
                assert(rows_map(q).contains_key(k));
            }
        }
    }
}

/// Turning a variable map into rows and back gives the map again: for rows `m` with
/// distinct names, each non-blank and already trimmed, any reordering `rows` of them
/// (such as the sorted rows of `env_map_to_rows`) describes, by `env_rows_to_map`,
/// exactly the map that `m` holds.
pub proof fn law_env_rows_round_trip(m: RowsView, rows: RowsView)
    requires
        distinct_names(m),
        plain_names(m),
        rows.to_multiset() == m.to_multiset(),
    ensures
        rows_map(rows) == list_map(m),
{
    m.to_multiset_ensures();
    rows.to_multiset_ensures();
    assert forall|j: int| 0 <= j < rows.len() implies m.contains(#[trigger] rows[j]) by {
        assert(rows.contains(rows[j]));
        assert(rows.to_multiset().count(rows[j]) > 0);
        assert(m.to_multiset().count(rows[j]) > 0);
    }
    lemma_rows_map_of_rows_from(m, rows);
    let r = rows_map(rows);
    assert forall|k: Seq<char>| #[trigger] r.contains_key(k) <==> list_map(m).contains_key(k) by {
        if r.contains_key(k) {
            let j = choose|j: int| 0 <= j < rows.len() && rows[j].0 == k;
            assert(m.contains(rows[j]));
            let i = choose|i: int| 0 <= i < m.len() && m[i] == rows[j];
            assert(m[i].0 == k);
        }
        if list_map(m).contains_key(k) {
            let i = choose|i: int| 0 <= i < m.len() && m[i].0 == k;
            assert(m.contains(m[i]));
            assert(m.to_multiset().count(m[i]) > 0);
            assert(rows.to_multiset().count(m[i]) > 0);
            assert(rows.contains(m[i]));
            let j = choose|j: int| 0 <= j < rows.len() && rows[j] == m[i];
            assert(rows[j].0 == k);
        }
    }
    assert forall|k: Seq<char>| #[trigger] r.contains_key(k) implies r[k] == list_map(m)[k] by {
        assert(m.contains((k, r[k])));
        let i0 = choose|i: int| 0 <= i < m.len() && m[i] == (k, r[k]);
        let i1 = choose|i: int| 0 <= i < m.len() && m[i].0 == k;
        assert(m[i0].0 == k);
        if i0 != i1 {
            if i0 < i1 {
                assert(m[i0].0 != m[i1].0);
            } else {
                assert(m[i1].0 != m[i0].0);
            }
        }
    }
    assert(r =~= list_map(m));
}

} // verus!
