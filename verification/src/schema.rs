//! In-memory, mutable logical-schema model.
//!
//! The schema tracks what is currently application-visible, independent of
//! raw physical state. It is consulted read-only while an action runs and
//! mutated only by an action's update-schema step.

use vstd::prelude::*;
use vstd::string::StringExecFns;

verus! {

/// Logical shape of one column.
#[derive(Debug, Clone)]
pub struct SchemaColumn {
    pub name: String,
    pub data_type: String,
    pub nullable: bool,
}

/// Logical shape of one table.
#[derive(Debug, Clone)]
pub struct SchemaTable {
    pub name: String,
    pub columns: Vec<SchemaColumn>,
}

/// The first table in `ts` whose name is `name`, if any.
pub open spec fn lookup_in(ts: Seq<SchemaTable>, name: Seq<char>) -> Option<SchemaTable>
    decreases ts.len(),
{
    if ts.len() == 0 {
        None
    } else if ts[0].name@ == name {
        Some(ts[0])
    } else {
        lookup_in(ts.drop_first(), name)
    }
}

/// The tracked application-visible schema: a mapping from table names to
/// their current logical shape.
#[derive(Debug, Clone)]
pub struct Schema {
    tables: Vec<SchemaTable>,
}

impl Schema {
    /// The registered tables, in registration order.
    pub closed spec fn spec_tables(&self) -> Seq<SchemaTable> {
        self.tables@
    }

    /// No two registered tables share a name.
    pub closed spec fn wf(&self) -> bool {
        forall|i: int, j: int|
            0 <= i < j < self.tables@.len() ==> self.tables@[i].name@ != self.tables@[j].name@
    }

    /// The registered shape of the table called `name`, if any.
    pub closed spec fn spec_lookup(&self, name: Seq<char>) -> Option<SchemaTable> {
        lookup_in(self.tables@, name)
    }

    /// Whether a table called `name` is registered.
    pub open spec fn has_table(&self, name: Seq<char>) -> bool {
        self.spec_lookup(name) is Some
    }

    /// An empty schema: nothing is application-visible yet.
    pub fn new() -> (s: Schema)
        ensures
            s.wf(),
            s.spec_tables() =~= Seq::<SchemaTable>::empty(),
            forall|n: Seq<char>| s.spec_lookup(n) is None,
    {
        Schema { tables: Vec::new() }
    }

    /// Looks up the current logical shape of the table called `name`.
    pub fn lookup_table(&self, name: &str) -> (r: Option<&SchemaTable>)
        ensures
            match r {
                Some(t) => self.spec_lookup(name@) == Some(*t),
                None => self.spec_lookup(name@) is None,
            },
    {
        let wanted = String::from_str(name);
        let ghost ts = self.tables@;
        let mut i: usize = 0;
        while i < self.tables.len()
            invariant
                i <= ts.len(),
                ts == self.tables@,
                wanted@ == name@,
                forall|j: int| 0 <= j < i ==> ts[j].name@ != name@,
            decreases ts.len() - i,
        {
            if self.tables[i].name == wanted {
                proof {
                    lemma_lookup_skips_mismatches(ts, i as int, name@);
                    assert(ts.skip(i as int)[0] == ts[i as int]);
                }
                return Some(&self.tables[i]);
            }
            i = i + 1;
        }
        proof {
            lemma_lookup_skips_mismatches(ts, ts.len() as int, name@);
        }
        None
    }

    /// Registers a newly created or changed table: a table already
    /// registered under the same name is replaced, any other is kept as it
    /// stands.
    pub fn register_table(&mut self, table: SchemaTable)
        requires
            old(self).wf(),
        ensures
            final(self).wf(),
            final(self).spec_lookup(table.name@) == Some(table),
            forall|n: Seq<char>|
                n != table.name@ ==> final(self).spec_lookup(n) == old(self).spec_lookup(n),
    {
        let ghost ts = self.tables@;
        let mut i: usize = 0;
        while i < self.tables.len()
            invariant
                i <= ts.len(),
                ts == self.tables@,
                old(self).wf(),
                *old(self) == *self,
                forall|j: int| 0 <= j < i ==> ts[j].name@ != table.name@,
            decreases ts.len() - i,
        {
            if self.tables[i].name == table.name {
                proof {
                    lemma_lookup_in_update(ts, i as int, table);
                }
                self.tables.set(i, table);
                return ;
            }
            i = i + 1;
        }
        proof {
            lemma_lookup_in_push(ts, table);
        }
        self.tables.push(table);
        proof {
            assert forall|a: int, b: int|
                0 <= a < b < self.tables@.len() implies self.tables@[a].name@
                != self.tables@[b].name@ by {
                if b < ts.len() {
                    assert(old(self).wf());
                } else {
                    assert(self.tables@[b] == table);
                    assert(ts[a].name@ != table.name@);
                }
            }
        }
    }
}

/// Looking a name up skips any prefix in which every table bears another
/// name.
proof fn lemma_lookup_skips_mismatches(ts: Seq<SchemaTable>, i: int, name: Seq<char>)
    requires
        0 <= i <= ts.len(),
        forall|j: int| 0 <= j < i ==> ts[j].name@ != name,
    ensures
        lookup_in(ts, name) == lookup_in(ts.skip(i), name),
    decreases i,
{
    if i > 0 {
        assert(ts[0].name@ != name);
        lemma_lookup_skips_mismatches(ts.drop_first(), i - 1, name);
        assert(ts.drop_first().skip(i - 1) =~= ts.skip(i));
    } else {
        assert(ts.skip(0) =~= ts);
    }
}

/// Replacing the first table that bears `t`'s name changes exactly that
/// name's lookup.
proof fn lemma_lookup_in_update(ts: Seq<SchemaTable>, i: int, t: SchemaTable)
    requires
        0 <= i < ts.len(),
        ts[i].name@ == t.name@,
        forall|j: int| 0 <= j < i ==> ts[j].name@ != t.name@,
    ensures
        lookup_in(ts.update(i, t), t.name@) == Some(t),
        forall|n: Seq<char>|
            n != t.name@ ==> lookup_in(ts.update(i, t), n) == lookup_in(ts, n),
    decreases i,
{
    let ts2 = ts.update(i, t);
    if i == 0 {
        assert(ts2[0] == t);
        assert forall|n: Seq<char>| n != t.name@ implies lookup_in(ts2, n) == lookup_in(
            ts,
            n,
        ) by {
            assert(ts2.drop_first() =~= ts.drop_first());
            assert(lookup_in(ts2, n) == lookup_in(ts2.drop_first(), n));
            assert(lookup_in(ts, n) == lookup_in(ts.drop_first(), n));
        }
    } else {
        lemma_lookup_in_update(ts.drop_first(), i - 1, t);
        assert(ts2[0] == ts[0]);
        assert(ts2.drop_first() =~= ts.drop_first().update(i - 1, t));
        assert(lookup_in(ts2, t.name@) == lookup_in(ts2.drop_first(), t.name@));
        assert forall|n: Seq<char>| n != t.name@ implies lookup_in(ts2, n) == lookup_in(
            ts,
            n,
        ) by {
            if ts[0].name@ != n {
                assert(lookup_in(ts2, n) == lookup_in(ts2.drop_first(), n));
                assert(lookup_in(ts, n) == lookup_in(ts.drop_first(), n));
            } else {
                assert(lookup_in(ts2, n) == Some(ts[0]));
                assert(lookup_in(ts, n) == Some(ts[0]));
            }
        }
    }
}

/// Appending a table under a fresh name changes exactly that name's lookup.
proof fn lemma_lookup_in_push(ts: Seq<SchemaTable>, t: SchemaTable)
    requires
        forall|j: int| 0 <= j < ts.len() ==> ts[j].name@ != t.name@,
    ensures
        lookup_in(ts.push(t), t.name@) == Some(t),
        forall|n: Seq<char>| n != t.name@ ==> lookup_in(ts.push(t), n) == lookup_in(ts, n),
    decreases ts.len(),
{
    let ts2 = ts.push(t);
    if ts.len() == 0 {
        assert(ts2[0] == t);
        assert forall|n: Seq<char>| n != t.name@ implies lookup_in(ts2, n) == lookup_in(
            ts,
            n,
        ) by {
            assert(ts2.drop_first() =~= ts);
            assert(lookup_in(ts2, n) == lookup_in(ts2.drop_first(), n));
        }
    } else {
        lemma_lookup_in_push(ts.drop_first(), t);
        assert(ts2[0] == ts[0]);
        assert(ts2.drop_first() =~= ts.drop_first().push(t));
        assert(lookup_in(ts2, t.name@) == lookup_in(ts2.drop_first(), t.name@));
        assert forall|n: Seq<char>| n != t.name@ implies lookup_in(ts2, n) == lookup_in(
            ts,
            n,
        ) by {
            if ts[0].name@ != n {
                assert(lookup_in(ts2, n) == lookup_in(ts2.drop_first(), n));
                assert(lookup_in(ts, n) == lookup_in(ts.drop_first(), n));
            } else {
                assert(lookup_in(ts2, n) == Some(ts[0]));
                assert(lookup_in(ts, n) == Some(ts[0]));
            }
        }
    }
}

} // verus!
