use vstd::prelude::*;

verus! {

/// One key/value pair of an association table.
pub(crate) struct TableEntry<T> {
    pub key: u32,
    pub value: T,
}

/// No two entries share a key.
pub(crate) open spec fn distinct_keys<T>(s: Seq<TableEntry<T>>) -> bool {
    forall|i: int, j: int| 0 <= i < j < s.len() ==> s[i].key != s[j].key
}

/// The finite map that a sequence of entries denotes; a later entry for the
/// same key would win, but the table keeps keys distinct.
pub(crate) open spec fn table_map<T>(s: Seq<TableEntry<T>>) -> Map<u32, T>
    decreases s.len(),
{
    if s.len() == 0 {
        Map::empty()
    } else {
        table_map(s.drop_last()).insert(s.last().key, s.last().value)
    }
}

pub(crate) proof fn lemma_table_map_contains<T>(s: Seq<TableEntry<T>>, k: u32)
    ensures
        table_map(s).contains_key(k) <==> exists|i: int| 0 <= i < s.len() && s[i].key == k,
    decreases s.len(),
{
    if s.len() == 0 {
    } else {
        lemma_table_map_contains(s.drop_last(), k);
        if s.last().key == k {
            assert(s[s.len() - 1].key == k);
        } else {
            if exists|i: int| 0 <= i < s.len() && s[i].key == k {
                let i = choose|i: int| 0 <= i < s.len() && s[i].key == k;
                assert(s.drop_last()[i].key == k);
            }
            if exists|i: int| 0 <= i < s.drop_last().len() && s.drop_last()[i].key == k {
                let i = choose|i: int| 0 <= i < s.drop_last().len() && s.drop_last()[i].key == k;
                assert(s[i].key == k);
            }
        }
    }
}

pub(crate) proof fn lemma_table_map_lookup<T>(s: Seq<TableEntry<T>>, i: int)
    requires
        distinct_keys(s),
        0 <= i < s.len(),
    ensures
        table_map(s).contains_key(s[i].key),
        table_map(s)[s[i].key] == s[i].value,
    decreases s.len(),
{
    if i == s.len() - 1 {
    } else {
        assert(distinct_keys(s.drop_last()));
        assert(s.drop_last()[i] == s[i]);
        lemma_table_map_lookup(s.drop_last(), i);
        assert(s[i].key != s.last().key);
    }
}

pub(crate) proof fn lemma_table_map_remove_at<T>(s: Seq<TableEntry<T>>, i: int)
    requires
        distinct_keys(s),
        0 <= i < s.len(),
    ensures
        table_map(s.remove(i)) =~= table_map(s).remove(s[i].key),
        distinct_keys(s.remove(i)),
    decreases s.len(),
{
    assert forall|a: int, b: int| 0 <= a < b < s.remove(i).len() implies s.remove(i)[a].key != s.remove(
        i,
    )[b].key by {
        let a0: int = if a < i {
            a
        } else {
            a + 1
        };
        let b0: int = if b < i {
            b
        } else {
            b + 1
        };
        assert(s.remove(i)[a] == s[a0]);
        assert(s.remove(i)[b] == s[b0]);
    }
    if i == s.len() - 1 {
        assert(s.remove(i) =~= s.drop_last());
        lemma_table_map_contains(s.drop_last(), s[i].key);
        assert forall|j: int| 0 <= j < s.drop_last().len() implies s.drop_last()[j].key != s[i].key by {
            assert(s.drop_last()[j] == s[j]);
        }
        assert(!table_map(s.drop_last()).contains_key(s[i].key));
        assert(table_map(s.drop_last()) =~= table_map(s.drop_last()).insert(s.last().key, s.last().value).remove(
            s[i].key,
        ));
    } else {
        let k = s[i].key;
        assert(distinct_keys(s.drop_last()));
        lemma_table_map_remove_at(s.drop_last(), i);
        assert(s.remove(i).drop_last() =~= s.drop_last().remove(i));
        assert(s.remove(i).last() == s.last());
        assert(k != s.last().key);
        // table_map(s.remove(i))
        //   == table_map(s.drop_last().remove(i)).insert(last.key, last.value)
        //   == table_map(s.drop_last()).remove(k).insert(last.key, last.value)
        //   == table_map(s.drop_last()).insert(last.key, last.value).remove(k)
        assert(table_map(s.drop_last()).remove(k).insert(s.last().key, s.last().value) =~= table_map(
            s.drop_last(),
        ).insert(s.last().key, s.last().value).remove(k));
    }
}

pub(crate) proof fn lemma_table_map_dom_len<T>(s: Seq<TableEntry<T>>)
    requires
        distinct_keys(s),
    ensures
        table_map(s).dom().finite(),
        table_map(s).dom().len() == s.len(),
    decreases s.len(),
{
    if s.len() == 0 {
        assert(table_map(s).dom() =~= Set::<u32>::empty());
    } else {
        assert(distinct_keys(s.drop_last()));
        lemma_table_map_dom_len(s.drop_last());
        lemma_table_map_contains(s.drop_last(), s.last().key);
        assert forall|j: int| 0 <= j < s.drop_last().len() implies s.drop_last()[j].key != s.last().key by {
            assert(s.drop_last()[j] == s[j]);
        }
        assert(!table_map(s.drop_last()).contains_key(s.last().key));
        vstd::set::axiom_set_insert_finite(table_map(s.drop_last()).dom(), s.last().key);
        vstd::set::axiom_set_insert_len(table_map(s.drop_last()).dom(), s.last().key);
    }
}

pub(crate) proof fn lemma_table_map_push<T>(s: Seq<TableEntry<T>>, e: TableEntry<T>)
    ensures
        table_map(s.push(e)) =~= table_map(s).insert(e.key, e.value),
{
    assert(s.push(e).drop_last() =~= s);
    assert(s.push(e).last() == e);
}

/// An association table from session identifiers to values, with distinct
/// keys; its view is the finite map it denotes.
pub(crate) struct Table<T> {
    entries: Vec<TableEntry<T>>,
}

impl<T> View for Table<T> {
    type V = Map<u32, T>;

    closed spec fn view(&self) -> Map<u32, T> {
        table_map(self.entries@)
    }
}

impl<T> Table<T> {
    pub(crate) closed spec fn wf(&self) -> bool {
        distinct_keys(self.entries@)
    }

    pub(crate) fn new() -> (t: Table<T>)
        ensures
            t.wf(),
            t@ == Map::<u32, T>::empty(),
    {
        Table { entries: Vec::new() }
    }

    fn find(&self, key: u32) -> (r: Option<usize>)
        ensures
            match r {
                Some(i) => i < self.entries@.len() && self.entries@[i as int].key == key,
                None => forall|j: int| 0 <= j < self.entries@.len() ==> self.entries@[j].key != key,
            },
    {
        let mut i: usize = 0;
        while i < self.entries.len()
            invariant
                i <= self.entries@.len(),
                forall|j: int| 0 <= j < i ==> self.entries@[j].key != key,
            decreases self.entries@.len() - i,
        {
            if self.entries[i].key == key {
                return Some(i);
            }
            i = i + 1;
        }
        None
    }

    pub(crate) fn contains(&self, key: u32) -> (r: bool)
        ensures
            r == self@.contains_key(key),
    {
        proof {
            lemma_table_map_contains(self.entries@, key);
        }
        match self.find(key) {
            Some(_) => true,
            None => false,
        }
    }

    pub(crate) fn get(&self, key: u32) -> (r: Option<&T>)
        requires
            self.wf(),
        ensures
            match r {
                Some(v) => self@.contains_key(key) && self@[key] == *v,
                None => !self@.contains_key(key),
            },
    {
        proof {
            lemma_table_map_contains(self.entries@, key);
        }
        match self.find(key) {
            Some(i) => {
                proof {
                    lemma_table_map_lookup(self.entries@, i as int);
                }
                Some(&self.entries[i].value)
            },
            None => None,
        }
    }

    pub(crate) fn remove(&mut self, key: u32) -> (r: Option<T>)
        requires
            old(self).wf(),
        ensures
            final(self).wf(),
            final(self)@ == old(self)@.remove(key),
            match r {
                Some(v) => old(self)@.contains_key(key) && old(self)@[key] == v,
                None => !old(self)@.contains_key(key),
            },
    {
        proof {
            lemma_table_map_contains(self.entries@, key);
        }
        match self.find(key) {
            Some(i) => {
                proof {
                    lemma_table_map_lookup(self.entries@, i as int);
                    lemma_table_map_remove_at(self.entries@, i as int);
                }
                let entry = self.entries.remove(i);
                Some(entry.value)
            },
            None => {
                proof {
                    assert(old(self)@.remove(key) =~= old(self)@);
                }
                None
            },
        }
    }

    pub(crate) fn insert(&mut self, key: u32, value: T)
        requires
            old(self).wf(),
        ensures
            final(self).wf(),
            final(self)@ == old(self)@.insert(key, value),
    {
        let ghost m0 = self@;
        let _ = self.remove(key);
        let ghost s1 = self.entries@;
        proof {
            lemma_table_map_contains(s1, key);
            lemma_table_map_push(s1, TableEntry { key, value });
        }
        self.entries.push(TableEntry { key, value });
        proof {
            assert forall|a: int, b: int|
                0 <= a < b < self.entries@.len() implies self.entries@[a].key != self.entries@[b].key by {
                if b < s1.len() {
                    assert(self.entries@[a] == s1[a]);
                    assert(self.entries@[b] == s1[b]);
                } else {
                    assert(self.entries@[a] == s1[a]);
                    assert(self.entries@[b].key == key);
                    assert(!table_map(s1).contains_key(key));
                }
            }
            assert(self@ =~= m0.insert(key, value));
        }
    }

    pub(crate) fn keys(&self) -> (r: Vec<u32>)
        requires
            self.wf(),
        ensures
            forall|k: u32| r@.contains(k) <==> self@.contains_key(k),
            r@.no_duplicates(),
            r@.len() == self@.dom().len(),
    {
        proof {
            lemma_table_map_dom_len(self.entries@);
        }
        let mut r: Vec<u32> = Vec::new();
        let mut i: usize = 0;
        while i < self.entries.len()
            invariant
                i <= self.entries@.len(),
                r@.len() == i,
                forall|j: int| 0 <= j < i ==> r@[j] == self.entries@[j].key,
            decreases self.entries@.len() - i,
        {
            r.push(self.entries[i].key);
            i = i + 1;
        }
        proof {
            assert forall|k: u32| r@.contains(k) <==> self@.contains_key(k) by {
                lemma_table_map_contains(self.entries@, k);
                if exists|j: int| 0 <= j < r@.len() && r@[j] == k {
                    let j = choose|j: int| 0 <= j < r@.len() && r@[j] == k;
                    assert(self.entries@[j].key == k);
                }
                if exists|j: int| 0 <= j < self.entries@.len() && self.entries@[j].key == k {
                    let j = choose|j: int| 0 <= j < self.entries@.len() && self.entries@[j].key == k;
                    assert(r@[j] == k);
                }
            }
        }
        r
    }

    pub(crate) fn clear(&mut self)
        ensures
            final(self).wf(),
            final(self)@ == Map::<u32, T>::empty(),
    {
        self.entries = Vec::new();
    }
}

} // verus!
