use vstd::prelude::*;

verus! {

/// The attributes of one stored record, as the downstream interface
/// sees them: a flat mapping of named string attributes.
pub open spec fn attrs_view(attrs: Seq<(String, String)>) -> Seq<(Seq<char>, Seq<char>)> {
    attrs.map(|i: int, p: (String, String)| (p.0@, p.1@))
}

/// No two rows share a key.
pub open spec fn unique_keys(rows: Seq<(String, Vec<(String, String)>)>) -> bool {
    forall|i: int, j: int|
        0 <= i < j < rows.len() ==> (#[trigger] rows[i]).0@ != (#[trigger] rows[j]).0@
}

/// The rows as a mapping from key to attributes; with unique keys, the
/// later entry of a duplicate pair cannot arise.
pub open spec fn rows_map(rows: Seq<(String, Vec<(String, String)>)>) -> Map<
    Seq<char>,
    Seq<(Seq<char>, Seq<char>)>,
>
    decreases rows.len(),
{
    if rows.len() == 0 {
        Map::empty()
    } else {
        rows_map(rows.drop_last()).insert(rows.last().0@, attrs_view(rows.last().1@))
    }
}

proof fn lemma_rows_map_absent(rows: Seq<(String, Vec<(String, String)>)>, k: Seq<char>)
    requires
        forall|j: int| 0 <= j < rows.len() ==> (#[trigger] rows[j]).0@ != k,
    ensures
        !rows_map(rows).dom().contains(k),
    decreases rows.len(),
{
    if rows.len() > 0 {
        let prefix = rows.drop_last();
        assert forall|j: int| 0 <= j < prefix.len() implies (#[trigger] prefix[j]).0@ != k by {
            assert(prefix[j] == rows[j]);
        }
        lemma_rows_map_absent(prefix, k);
        assert(rows[rows.len() - 1] == rows.last());
    }
}

proof fn lemma_rows_map_remove(rows: Seq<(String, Vec<(String, String)>)>, i: int)
    requires
        0 <= i < rows.len(),
        unique_keys(rows),
    ensures
        rows_map(rows.remove(i)) == rows_map(rows).remove(rows[i].0@),
    decreases rows.len(),
{
    let k = rows[i].0@;
    if i == rows.len() - 1 {
        assert(rows.remove(i) =~= rows.drop_last());
        assert forall|j: int| 0 <= j < rows.drop_last().len() implies (#[trigger] rows.drop_last()[j]).0@
            != k by {
            assert(rows.drop_last()[j] == rows[j]);
        }
        lemma_rows_map_absent(rows.drop_last(), k);
        assert(rows[i] == rows.last());
        assert(rows_map(rows).remove(k) =~= rows_map(rows.drop_last()));
    } else {
        let prefix = rows.drop_last();
        assert forall|a: int, b: int| 0 <= a < b < prefix.len() implies (#[trigger] prefix[a]).0@
            != (#[trigger] prefix[b]).0@ by {
            assert(prefix[a] == rows[a]);
            assert(prefix[b] == rows[b]);
        }
        assert(prefix[i] == rows[i]);
        lemma_rows_map_remove(prefix, i);
        assert(rows.remove(i).drop_last() =~= prefix.remove(i));
        assert(rows.remove(i).last() == rows.last());
        assert(rows[rows.len() - 1] == rows.last());
        assert(rows.last().0@ != k);
        assert(rows_map(rows.remove(i)) == rows_map(prefix.remove(i)).insert(
            rows.last().0@,
            attrs_view(rows.last().1@),
        ));
        assert(rows_map(prefix).remove(k).insert(rows.last().0@, attrs_view(rows.last().1@)) =~= rows_map(
            prefix,
        ).insert(rows.last().0@, attrs_view(rows.last().1@)).remove(k));
    }
}

/// An in-memory model of the downstream table: an idempotent key-value
/// upsert keyed by a stable identifier. It stands in for the managed
/// store so the batch processor is testable without one.
pub struct TableStore {
    pub table_name: String,
    pub rows: Vec<(String, Vec<(String, String)>)>,
}

impl TableStore {
    /// The store's internal invariant: one row per key.
    pub open spec fn wf(self) -> bool {
        unique_keys(self.rows@)
    }

    /// The stored state: a mapping from key to attributes.
    pub open spec fn contents(self) -> Map<Seq<char>, Seq<(Seq<char>, Seq<char>)>> {
        rows_map(self.rows@)
    }

    pub fn new(table_name: String) -> (r: TableStore)
        ensures
            r.wf(),
            r.contents() == Map::<Seq<char>, Seq<(Seq<char>, Seq<char>)>>::empty(),
            r.table_name == table_name,
            r.rows@.len() == 0,
    {
        TableStore { table_name, rows: Vec::new() }
    }

    fn find_row(&self, key: &String) -> (r: Option<usize>)
        ensures
            match r {
                Some(i) => i < self.rows@.len() && self.rows@[i as int].0@ == key@,
                None => forall|j: int|
                    0 <= j < self.rows@.len() ==> (#[trigger] self.rows@[j]).0@ != key@,
            },
    {
        let mut i: usize = 0;
        while i < self.rows.len()
            invariant
                i <= self.rows@.len(),
                forall|j: int| 0 <= j < i ==> (#[trigger] self.rows@[j]).0@ != key@,
            decreases self.rows@.len() - i,
        {
            if self.rows[i].0 == *key {
                return Some(i);
            }
            i += 1;
        }
        None
    }

    /// Writes the attributes under the key, replacing any row already
    /// stored under it: repeating the same write leaves the same state.
    pub fn upsert(&mut self, key: String, attrs: Vec<(String, String)>)
        requires
            old(self).wf(),
        ensures
            final(self).wf(),
            final(self).table_name == old(self).table_name,
            final(self).contents() == old(self).contents().insert(key@, attrs_view(attrs@)),
    {
        let ghost r0 = self.rows@;
        let found = self.find_row(&key);
        match found {
            Some(i) => {
                let _ = self.rows.remove(i);
                proof {
                    lemma_rows_map_remove(r0, i as int);
                    assert forall|a: int, b: int|
                        0 <= a < b < self.rows@.len() implies (#[trigger] self.rows@[a]).0@ != (
                    #[trigger] self.rows@[b]).0@ by {
                        assert(self.rows@[a] == if a < i as int {
                            r0[a]
                        } else {
                            r0[a + 1]
                        });
                        assert(self.rows@[b] == if b < i as int {
                            r0[b]
                        } else {
                            r0[b + 1]
                        });
                    }
                    assert forall|j: int| 0 <= j < self.rows@.len() implies (
                    #[trigger] self.rows@[j]).0@ != key@ by {
                        assert(self.rows@[j] == if j < i as int {
                            r0[j]
                        } else {
                            r0[j + 1]
                        });
                    }
                }
                self.rows.push((key, attrs));
                proof {
                    assert(self.rows@.drop_last() =~= r0.remove(i as int));
                    assert(rows_map(r0).remove(r0[i as int].0@).insert(key@, attrs_view(attrs@))
                        =~= rows_map(r0).insert(key@, attrs_view(attrs@)));
                }
            },
            None => {
                self.rows.push((key, attrs));
                proof {
                    assert(self.rows@.drop_last() =~= r0);
                }
            },
        }
    }
}

} // verus!
