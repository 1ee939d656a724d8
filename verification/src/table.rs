//! A small association table with unique string keys, the in-memory form of
//! both the named-remote registry and a secrets mapping. The key space is
//! flat and case-sensitive.

use vstd::prelude::*;
use vstd::string::*;

use crate::strutil::str_eq;

verus! {

/// One named entry.
#[derive(Debug, Clone, PartialEq)]
pub struct TableEntry<V> {
    pub name: String,
    pub value: V,
}

/// The value stored under `name`, walking the entries in order.
pub open spec fn spec_find<V>(s: Seq<TableEntry<V>>, name: Seq<char>) -> Option<V>
    decreases s.len(),
{
    if s.len() == 0 {
        None
    } else if s[0].name@ == name {
        Some(s[0].value)
    } else {
        spec_find(s.drop_first(), name)
    }
}

/// A mapping from names to values with each name occurring at most once.
#[derive(Debug, Clone, PartialEq)]
pub struct Table<V> {
    entries: Vec<TableEntry<V>>,
}

impl<V> View for Table<V> {
    type V = Seq<TableEntry<V>>;

    closed spec fn view(&self) -> Seq<TableEntry<V>> {
        self.entries@
    }
}

/// All names in the table are distinct.
pub open spec fn table_wf<V>(s: Seq<TableEntry<V>>) -> bool {
    forall|i: int, j: int| 0 <= i < j < s.len() ==> (#[trigger] s[i].name)@ != (#[trigger] s[j].name)@
}

proof fn lemma_find_first_match<V>(s: Seq<TableEntry<V>>, name: Seq<char>, i: int)
    requires
        0 <= i < s.len(),
        s[i].name@ == name,
        forall|j: int| 0 <= j < i ==> (#[trigger] s[j].name)@ != name,
    ensures
        spec_find(s, name) == Some(s[i].value),
    decreases i,
{
    if i > 0 {
        lemma_find_first_match(s.drop_first(), name, i - 1);
    }
}

proof fn lemma_find_none<V>(s: Seq<TableEntry<V>>, name: Seq<char>)
    requires
        forall|j: int| 0 <= j < s.len() ==> (#[trigger] s[j].name)@ != name,
    ensures
        spec_find(s, name) is None,
    decreases s.len(),
{
    if s.len() > 0 {
        lemma_find_none(s.drop_first(), name);
    }
}

proof fn lemma_find_update<V>(s: Seq<TableEntry<V>>, i: int, e: TableEntry<V>, q: Seq<char>)
    requires
        0 <= i < s.len(),
        e.name@ == s[i].name@,
    ensures
        q == s[i].name@ && (forall|j: int| 0 <= j < i ==> (#[trigger] s[j].name)@ != q)
            ==> spec_find(s.update(i, e), q) == Some(e.value),
        q != s[i].name@ ==> spec_find(s.update(i, e), q) == spec_find(s, q),
    decreases i,
{
    let t = s.update(i, e);
    if i == 0 {
        assert(t.drop_first() =~= s.drop_first());
    } else {
        lemma_find_update(s.drop_first(), i - 1, e, q);
        assert(t.drop_first() =~= s.drop_first().update(i - 1, e));
        assert(t[0] == s[0]);
    }
}

proof fn lemma_find_push<V>(s: Seq<TableEntry<V>>, e: TableEntry<V>, q: Seq<char>)
    ensures
        q == e.name@ && (forall|j: int| 0 <= j < s.len() ==> (#[trigger] s[j].name)@ != q)
            ==> spec_find(s.push(e), q) == Some(e.value),
        spec_find(s, q) is Some ==> spec_find(s.push(e), q) == spec_find(s, q),
        q != e.name@ ==> spec_find(s.push(e), q) == spec_find(s, q),
    decreases s.len(),
{
    let t = s.push(e);
    if s.len() == 0 {
        assert(t.len() == 1);
        assert(t[0] == e);
        assert(t.drop_first() =~= Seq::<TableEntry<V>>::empty());
        if q != e.name@ {
            assert(spec_find(t, q) is None);
        }
    } else {
        lemma_find_push(s.drop_first(), e, q);
        assert(t[0] == s[0]);
        assert(t.drop_first() =~= s.drop_first().push(e));
        if t[0].name@ == q {
            assert(spec_find(t, q) == Some(s[0].value));
            assert(spec_find(s, q) == Some(s[0].value));
        } else {
            assert(spec_find(t, q) == spec_find(t.drop_first(), q));
            assert(spec_find(s, q) == spec_find(s.drop_first(), q));
        }
    }
}

impl<V> Table<V> {
    /// Distinct names, stated of the whole table.
    pub open spec fn wf(&self) -> bool {
        table_wf(self@)
    }

    /// An empty table.
    pub fn new() -> (r: Table<V>)
        ensures
            r@ == Seq::<TableEntry<V>>::empty(),
            r.wf(),
    {
        Table { entries: Vec::new() }
    }

    /// Number of entries.
    pub fn len(&self) -> (r: usize)
        ensures
            r == self@.len(),
    {
        self.entries.len()
    }

    /// The entries, in table order.
    pub fn entries(&self) -> (r: &Vec<TableEntry<V>>)
        ensures
            r@ == self@,
    {
        &self.entries
    }

    /// Look a name up.
    pub fn get(&self, name: &str) -> (r: Option<&V>)
        ensures
            match spec_find(self@, name@) {
                Some(v) => r matches Some(rv) && *rv == v,
                None => r is None,
            },
    {
        let n = self.entries.len();
        let mut i: usize = 0;
        while i < n
            invariant
                i <= n,
                n == self@.len(),
                forall|j: int| 0 <= j < i ==> (#[trigger] self@[j].name)@ != name@,
            decreases n - i,
        {
            if str_eq(self.entries[i].name.as_str(), name) {
                proof {
                    lemma_find_first_match(self@, name@, i as int);
                }
                return Some(&self.entries[i].value);
            }
            i = i + 1;
        }
        proof {
            lemma_find_none(self@, name@);
        }
        None
    }

    /// Whether a name is present.
    pub fn contains(&self, name: &str) -> (r: bool)
        ensures
            r == (spec_find(self@, name@) is Some),
    {
        match self.get(name) {
            Some(_) => true,
            None => false,
        }
    }

    /// Insert or replace the value stored under `name`. Every other name
    /// keeps its value.
    #[verifier::loop_isolation(false)]
    pub fn upsert(&mut self, name: &str, value: V)
        requires
            old(self).wf(),
        ensures
            final(self).wf(),
            spec_find(final(self)@, name@) matches Some(v) && v == value,
            forall|q: Seq<char>| q != name@ ==> spec_find(final(self)@, q) == spec_find(
                old(self)@,
                q,
            ),
    {
        let ghost orig = self@;
        let n = self.entries.len();
        let mut i: usize = 0;
        while i < n
            invariant
                i <= n,
                n == self@.len(),
                self@ == orig,
                forall|j: int| 0 <= j < i ==> (#[trigger] self@[j].name)@ != name@,
            decreases n - i,
        {
            if str_eq(self.entries[i].name.as_str(), name) {
                let old_entry = self.entries.remove(i);
                let entry = TableEntry { name: old_entry.name, value };
                self.entries.insert(i, entry);
                proof {
                    assert(self@ =~= orig.update(i as int, entry));
                    assert forall|q: Seq<char>| q != name@ implies spec_find(self@, q)
                        == spec_find(orig, q) by {
                        lemma_find_update(orig, i as int, entry, q);
                    }
                    lemma_find_update(orig, i as int, entry, name@);
                    assert forall|a: int, b: int|
                        0 <= a < b < self@.len() implies (#[trigger] self@[a].name)@
                        != (#[trigger] self@[b].name)@ by {
                        assert(orig[a].name@ != orig[b].name@);
                    }
                }
                return ;
            }
            i = i + 1;
        }
        let entry = TableEntry { name: String::from_str(name), value };
        self.entries.push(entry);
        proof {
            assert(self@ =~= orig.push(entry));
            assert forall|q: Seq<char>| q != name@ implies spec_find(self@, q) == spec_find(
                orig,
                q,
            ) by {
                lemma_find_push(orig, entry, q);
            }
            lemma_find_push(orig, entry, name@);
            assert forall|a: int, b: int|
                0 <= a < b < self@.len() implies (#[trigger] self@[a].name)@
                != (#[trigger] self@[b].name)@ by {
                if b < orig.len() {
                    assert(orig[a].name@ != orig[b].name@);
                } else {
                    assert(self@[b] == entry);
                    assert(orig[a].name@ != name@);
                }
            }
        }
    }
}

} // verus!
