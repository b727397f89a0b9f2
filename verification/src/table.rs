//! Tables from text to values.

use vstd::prelude::*;

verus! {

/// The map that a list of entries stands for. Of two entries with one key the
/// later counts.
pub open spec fn map_of<W>(entries: Seq<(Seq<char>, W)>) -> Map<Seq<char>, W>
    decreases entries.len(),
{
    if entries.len() == 0 {
        Map::empty()
    } else {
        map_of(entries.drop_last()).insert(entries.last().0, entries.last().1)
    }
}

/// No two entries have the same key.
pub open spec fn distinct_keys<W>(entries: Seq<(Seq<char>, W)>) -> bool {
    forall|i: int, j: int|
        0 <= i < j < entries.len() ==> (#[trigger] entries[i]).0 != (#[trigger] entries[j]).0
}

/// The keys of a map of entries are those of its entries.
pub proof fn map_of_has_the_keys<W>(entries: Seq<(Seq<char>, W)>, k: Seq<char>)
    ensures
        map_of(entries).contains_key(k) <==> exists|i: int|
            0 <= i < entries.len() && (#[trigger] entries[i]).0 == k,
    decreases entries.len(),
{
    if entries.len() > 0 {
        let shorter = entries.drop_last();
        map_of_has_the_keys(shorter, k);
        if map_of(shorter).contains_key(k) {
            let i = choose|i: int| 0 <= i < shorter.len() && (#[trigger] shorter[i]).0 == k;
            assert(entries[i].0 == k);
        }
        if entries.last().0 == k {
            assert(entries[entries.len() - 1].0 == k);
        }
        if exists|i: int| 0 <= i < entries.len() && (#[trigger] entries[i]).0 == k {
            let i = choose|i: int| 0 <= i < entries.len() && (#[trigger] entries[i]).0 == k;
            if i < shorter.len() {
                assert(shorter[i].0 == k);
            }
        }
    }
}

/// Where the keys are distinct, each entry counts.
pub proof fn map_of_has_the_entries<W>(entries: Seq<(Seq<char>, W)>, i: int)
    requires
        distinct_keys(entries),
        0 <= i < entries.len(),
    ensures
        map_of(entries).contains_key(entries[i].0),
        map_of(entries)[entries[i].0] == entries[i].1,
    decreases entries.len(),
{
    let shorter = entries.drop_last();
    assert(distinct_keys(shorter)) by {
        assert forall|a: int, b: int| 0 <= a < b < shorter.len() implies (#[trigger] shorter[a]).0
            != (#[trigger] shorter[b]).0 by {
            assert(entries[a].0 != entries[b].0);
        }
    }
    if i < shorter.len() {
        map_of_has_the_entries(shorter, i);
        assert(shorter[i] == entries[i]);
        assert(entries[i].0 != entries[entries.len() - 1].0);
    }
}

/// Replacing the value of an entry replaces it in the map.
pub proof fn map_of_update<W>(entries: Seq<(Seq<char>, W)>, i: int, value: W)
    requires
        distinct_keys(entries),
        0 <= i < entries.len(),
    ensures
        map_of(entries.update(i, (entries[i].0, value))) == map_of(entries).insert(
            entries[i].0,
            value,
        ),
    decreases entries.len(),
{
    let shorter = entries.drop_last();
    let changed = entries.update(i, (entries[i].0, value));
    if i < shorter.len() {
        assert(distinct_keys(shorter)) by {
            assert forall|a: int, b: int|
                0 <= a < b < shorter.len() implies (#[trigger] shorter[a]).0
                != (#[trigger] shorter[b]).0 by {
                assert(entries[a].0 != entries[b].0);
            }
        }
        map_of_update(shorter, i, value);
        assert(changed.drop_last() =~= shorter.update(i, (shorter[i].0, value)));
        assert(entries[i].0 != entries[entries.len() - 1].0);
        assert(map_of(changed) =~= map_of(entries).insert(entries[i].0, value));
    } else {
        assert(changed.drop_last() =~= shorter);
        assert(map_of(changed) =~= map_of(entries).insert(entries[i].0, value));
    }
}

/// A table from text to values. Each key occurs once; the entries keep the
/// order in which their keys were first inserted.
#[derive(Debug)]
pub struct Table<V> {
    rows: Vec<(String, V)>,
}

/// The entries of a list of rows.
pub open spec fn entries_of<V: View>(rows: Seq<(String, V)>) -> Seq<(Seq<char>, V::V)> {
    rows.map_values(|row: (String, V)| (row.0@, row.1@))
}

impl<V: View> Table<V> {
    /// The entries, in order.
    pub closed spec fn entries(self) -> Seq<(Seq<char>, V::V)> {
        entries_of(self.rows@)
    }
}

impl<V> Table<V> {
    /// Each key occurs once.
    #[verifier::type_invariant]
    spec fn wf(self) -> bool {
        forall|i: int, j: int|
            0 <= i < j < self.rows@.len() ==> (#[trigger] self.rows@[i]).0@
                != (#[trigger] self.rows@[j]).0@
    }
}

/// The entries with the value of a key replaced, each in its place.
pub open spec fn replaced<W>(entries: Seq<(Seq<char>, W)>, key: Seq<char>, value: W) -> Seq<
    (Seq<char>, W),
> {
    entries.map_values(
        |e: (Seq<char>, W)|
            if e.0 == key {
                (key, value)
            } else {
                e
            },
    )
}

/// The entries of an optional table; where there is none, no entries.
pub open spec fn entries_or_none<V: View>(table: Option<Table<V>>) -> Seq<(Seq<char>, V::V)> {
    match table {
        Some(t) => t.entries(),
        None => Seq::empty(),
    }
}

impl<V: View> View for Table<V> {
    type V = Map<Seq<char>, V::V>;

    open spec fn view(&self) -> Map<Seq<char>, V::V> {
        map_of(self.entries())
    }
}

impl<V: View> Table<V> {
    /// A table without entries.
    pub fn new() -> (r: Self)
        ensures
            r.entries() == Seq::<(Seq<char>, V::V)>::empty(),
            r@ == Map::<Seq<char>, V::V>::empty(),
    {
        let r = Table { rows: Vec::new() };
        assert(r.entries() =~= Seq::empty());
        r
    }

    /// How many entries there are.
    pub fn len(&self) -> (r: usize)
        ensures
            r == self.entries().len(),
            distinct_keys(self.entries()),
    {
        proof {
            use_type_invariant(self);
            assert(distinct_keys(self.entries()));
        }
        self.rows.len()
    }

    /// The key of an entry.
    pub fn key(&self, i: usize) -> (r: &String)
        requires
            i < self.entries().len(),
        ensures
            r@ == self.entries()[i as int].0,
    {
        &self.rows[i].0
    }

    /// The value of an entry.
    pub fn value(&self, i: usize) -> (r: &V)
        requires
            i < self.entries().len(),
        ensures
            r@ == self.entries()[i as int].1,
    {
        &self.rows[i].1
    }

    /// The position of a key.
    fn position(&self, key: &str) -> (r: Option<usize>)
        ensures
            match r {
                Some(i) => i < self.entries().len() && self.entries()[i as int].0 == key@,
                None => !self@.contains_key(key@),
            },
    {
        let mut i: usize = 0;
        while i < self.rows.len()
            invariant
                i <= self.rows.len(),
                forall|j: int| 0 <= j < i ==> (#[trigger] self.entries()[j]).0 != key@,
            decreases self.rows.len() - i,
        {
            if crate::text::same_text(self.rows[i].0.as_str(), key) {
                return Some(i);
            }
            i += 1;
        }
        proof {
            map_of_has_the_keys(self.entries(), key@);
        }
        None
    }

    /// Whether there are no entries.
    pub fn is_empty(&self) -> (r: bool)
        ensures
            r == (self@ == Map::<Seq<char>, V::V>::empty()),
            r == (self.entries().len() == 0),
    {
        proof {
            if self.entries().len() > 0 {
                map_of_has_the_keys(self.entries(), self.entries()[0].0);
                assert(self@.contains_key(self.entries()[0].0));
            }
        }
        self.rows.len() == 0
    }

    /// The value of a key.
    pub fn get(&self, key: &str) -> (r: Option<&V>)
        ensures
            match r {
                Some(value) => self@.contains_key(key@) && value@ == self@[key@],
                None => !self@.contains_key(key@),
            },
    {
        match self.position(key) {
            Some(i) => {
                proof {
                    use_type_invariant(self);
                    assert(distinct_keys(self.entries()));
                    map_of_has_the_entries(self.entries(), i as int);
                }
                Some(&self.rows[i].1)
            },
            None => None,
        }
    }

    /// The table with the value of a key set. A key that is there keeps its place,
    /// and a new one comes last.
    pub fn with(self, key: String, value: V) -> (r: Self)
        ensures
            r@ == self@.insert(key@, value@),
            r.entries() == (if self@.contains_key(key@) {
                replaced(self.entries(), key@, value@)
            } else {
                self.entries().push((key@, value@))
            }),
    {
        proof {
            use_type_invariant(&self);
        }
        let ghost before = self.entries();
        assert(distinct_keys(before));
        let place: Option<usize> = self.position(key.as_str());
        let Table { rows } = self;
        let mut rows: Vec<(String, V)> = rows;
        match place {
            Some(i) => {
                rows.set(i, (key, value));
                proof {
                    assert(entries_of(rows@) =~= before.update(
                        i as int,
                        (before[i as int].0, value@),
                    ));
                    map_of_update(before, i as int, value@);
                    map_of_has_the_entries(before, i as int);
                    assert(entries_of(rows@) =~= replaced(before, key@, value@));
                }
            },
            None => {
                proof {
                    map_of_has_the_keys(before, key@);
                }
                rows.push((key, value));
                proof {
                    assert(entries_of(rows@) =~= before.push((key@, value@)));
                    assert(entries_of(rows@).drop_last() =~= before);
                }
            },
        }
        assert forall|i: int, j: int| 0 <= i < j < rows@.len() implies (#[trigger] rows@[i]).0@ != (
        #[trigger] rows@[j]).0@ by {
            assert(entries_of(rows@)[i].0 == rows@[i].0@);
            assert(entries_of(rows@)[j].0 == rows@[j].0@);
        }
        Table { rows }
    }
}

impl Clone for Table<String> {
    fn clone(&self) -> (r: Self)
        ensures
            r.entries() == self.entries(),
    {
        let mut r: Table<String> = Table::new();
        let n: usize = self.len();
        let mut i: usize = 0;
        while i < n
            invariant
                i <= n,
                n == self.entries().len(),
                distinct_keys(self.entries()),
                r.entries() == self.entries().take(i as int),
            decreases n - i,
        {
            proof {
                map_of_has_the_keys(r.entries(), self.entries()[i as int].0);
            }
            r = r.with(self.key(i).clone(), self.value(i).clone());
            assert(self.entries().take(i + 1) =~= self.entries().take(i as int).push(
                self.entries()[i as int],
            ));
            i += 1;
        }
        assert(self.entries().take(n as int) =~= self.entries());
        r
    }
}

/// Of the entries with one key the last counts, whatever stands before or after
/// it.
pub proof fn last_entry_counts<W>(entries: Seq<(Seq<char>, W)>, i: int)
    requires
        0 <= i < entries.len(),
        forall|j: int| i < j < entries.len() ==> (#[trigger] entries[j]).0 != entries[i].0,
    ensures
        map_of(entries).contains_key(entries[i].0),
        map_of(entries)[entries[i].0] == entries[i].1,
    decreases entries.len(),
{
    let shorter = entries.drop_last();
    if i < shorter.len() {
        assert forall|j: int| i < j < shorter.len() implies (#[trigger] shorter[j]).0
            != shorter[i].0 by {
            assert(entries[j].0 != entries[i].0);
        }
        last_entry_counts(shorter, i);
        assert(entries[entries.len() - 1].0 != entries[i].0);
    }
}

/// Replacing the value of a key keeps every entry in its place, and the values of
/// all other keys.
pub proof fn only_the_value_of_the_key_is_replaced<W>(
    entries: Seq<(Seq<char>, W)>,
    key: Seq<char>,
    value: W,
)
    ensures
        replaced(entries, key, value).len() == entries.len(),
        forall|i: int|
            0 <= i < entries.len() ==> {
                &&& (#[trigger] replaced(entries, key, value)[i]).0 == entries[i].0
                &&& entries[i].0 == key ==> replaced(entries, key, value)[i].1 == value
                &&& entries[i].0 != key ==> replaced(entries, key, value)[i].1 == entries[i].1
            },
{
}

/// An optional table has the entries of the table, and none where there is no
/// table. A key has a value exactly where it is in an entry.
pub proof fn optional_table_has_the_entries_of_the_table<V: View>(table: Table<V>, key: Seq<char>)
    ensures
        entries_or_none(Some(table)) == table.entries(),
        entries_or_none(None::<Table<V>>).len() == 0,
        table@.contains_key(key) <==> exists|i: int|
            0 <= i < table.entries().len() && (#[trigger] table.entries()[i]).0 == key,
{
    map_of_has_the_keys(table.entries(), key);
}

} // verus!
