use vstd::prelude::*;

use crate::name::{cached_name, cached_statement_name, lemma_cached_names_distinct};
use crate::stmt::{PrepareForCache, Statement};

verus! {

/// `a` and `b` hold the same bytes.
fn same_bytes(a: &[u8], b: &[u8]) -> (r: bool)
    ensures
        r == (a@ == b@),
{
    if a.len() != b.len() {
        return false;
    }
    let mut i: usize = 0;
    while i < a.len()
        invariant
            a@.len() == b@.len(),
            i <= a@.len(),
            forall|j: int| 0 <= j < i ==> a@[j] == b@[j],
        decreases a@.len() - i,
    {
        if a[i] != b[i] {
            return false;
        }
        i = i + 1;
    }
    assert(a@ =~= b@);
    true
}

/// `a` and `b` hold the same type identifiers.
fn same_types(a: &[u32], b: &[u32]) -> (r: bool)
    ensures
        r == (a@ == b@),
{
    if a.len() != b.len() {
        return false;
    }
    let mut i: usize = 0;
    while i < a.len()
        invariant
            a@.len() == b@.len(),
            i <= a@.len(),
            forall|j: int| 0 <= j < i ==> a@[j] == b@[j],
        decreases a@.len() - i,
    {
        if a[i] != b[i] {
            return false;
        }
        i = i + 1;
    }
    assert(a@ =~= b@);
    true
}

/// A statement kept on the server, with the counter it was named by.
pub struct CacheEntry {
    pub counter: u64,
    pub statement: Statement,
}

/// The named statements of one connection, keyed by SQL text and parameter types.
pub struct StatementCache {
    entries: Vec<CacheEntry>,
    next_counter: u64,
}

/// `e` is the statement for the SQL text `sql` with parameter types `ts`.
pub open spec fn has_key(e: CacheEntry, sql: Seq<u8>, ts: Seq<u32>) -> bool {
    e.statement@.sql == sql && e.statement@.param_types == ts
}

impl StatementCache {
    pub closed spec fn entries(&self) -> Seq<CacheEntry> {
        self.entries@
    }

    pub closed spec fn next_counter(&self) -> u64 {
        self.next_counter
    }

    /// Each statement is named by its own counter, counters rise with the order of insertion
    /// and stay below the next one, and no two statements share a key.
    pub open spec fn wf(&self) -> bool {
        &&& forall|i: int| 0 <= i < self.entries().len() ==> (#[trigger] self.entries()[i]).statement.wf()
        &&& forall|i: int|
            0 <= i < self.entries().len() ==> (#[trigger] self.entries()[i]).statement@.name
                == cached_name(self.entries()[i].counter)
        &&& forall|i: int|
            0 <= i < self.entries().len() ==> (#[trigger] self.entries()[i]).counter < self.next_counter()
        &&& forall|i: int, j: int|
            0 <= i < j < self.entries().len() ==> (#[trigger] self.entries()[i]).counter
                < (#[trigger] self.entries()[j]).counter
        &&& forall|i: int, j: int|
            0 <= i < j < self.entries().len() ==> !has_key(
                #[trigger] self.entries()[j],
                (#[trigger] self.entries()[i]).statement@.sql,
                self.entries()[i].statement@.param_types,
            )
    }

    /// An empty cache.
    pub fn new() -> (r: StatementCache)
        ensures
            r.wf(),
            r.entries().len() == 0,
            r.next_counter() == 0,
    {
        StatementCache { entries: Vec::new(), next_counter: 0 }
    }

    /// The number of statements kept.
    pub fn len(&self) -> (r: usize)
        ensures
            r == self.entries().len(),
    {
        self.entries.len()
    }

    /// The place of the statement for `sql` with parameter types `param_types`, if one is kept.
    pub fn lookup(&self, sql: &[u8], param_types: &[u32]) -> (r: Option<usize>)
        ensures
            match r {
                Some(i) => i < self.entries().len() && has_key(self.entries()[i as int], sql@, param_types@),
                None => forall|i: int|
                    0 <= i < self.entries().len() ==> !has_key(#[trigger] self.entries()[i], sql@, param_types@),
            },
    {
        let mut i: usize = 0;
        while i < self.entries.len()
            invariant
                i <= self.entries@.len(),
                forall|j: int| 0 <= j < i ==> !has_key(#[trigger] self.entries@[j], sql@, param_types@),
            decreases self.entries@.len() - i,
        {
            let st = &self.entries[i].statement;
            if same_bytes(st.sql(), sql) && same_types(st.param_types(), param_types) {
                return Some(i);
            }
            i = i + 1;
        }
        None
    }

    /// The statement kept at place `index`.
    pub fn statement(&self, index: usize) -> (r: &Statement)
        requires
            index < self.entries().len(),
        ensures
            *r == self.entries()[index as int].statement,
    {
        &self.entries[index].statement
    }

    /// How a statement missing from the cache is to be prepared: named by a counter that no
    /// kept statement has, or unnamed once the counters are spent.
    pub fn directive(&self) -> (r: PrepareForCache)
        ensures
            self.next_counter() < u64::MAX ==> r == (PrepareForCache::Yes { counter: self.next_counter() }),
            self.next_counter() == u64::MAX ==> r == PrepareForCache::No,
    {
        if self.next_counter < u64::MAX {
            PrepareForCache::Yes { counter: self.next_counter }
        } else {
            PrepareForCache::No
        }
    }

    /// Keeps `statement` when it was prepared under the current directive's name and its key is
    /// not yet kept; it is then found by `lookup`, and the next directive takes a new counter.
    /// A statement that is not kept is handed back.
    pub fn insert(&mut self, statement: Statement) -> (r: Option<Statement>)
        requires
            old(self).wf(),
            statement.wf(),
        ensures
            final(self).wf(),
            r is None == (old(self).next_counter() < u64::MAX && statement@.name == cached_name(
                old(self).next_counter(),
            ) && forall|i: int|
                0 <= i < old(self).entries().len() ==> !has_key(
                    #[trigger] old(self).entries()[i],
                    statement@.sql,
                    statement@.param_types,
                )),
            r is None ==> final(self).entries() == old(self).entries().push(
                CacheEntry { counter: old(self).next_counter(), statement },
            ),
            r is None ==> final(self).next_counter() == old(self).next_counter() + 1,
            r is Some ==> r == Some(statement),
            r is Some ==> final(self).entries() == old(self).entries(),
            r is Some ==> final(self).next_counter() == old(self).next_counter(),
    {
        if self.next_counter == u64::MAX {
            return Some(statement);
        }
        let expected = cached_statement_name(self.next_counter);
        if !same_bytes(statement.name(), expected.as_slice()) {
            return Some(statement);
        }
        if self.lookup(statement.sql(), statement.param_types()).is_some() {
            return Some(statement);
        }
        let counter = self.next_counter;
        let ghost before = self.entries@;
        self.entries.push(CacheEntry { counter, statement });
        self.next_counter = counter + 1;
        assert(self.entries@ == before.push(CacheEntry { counter, statement }));
        None
    }
}

/// No two statements that a cache keeps share a server-side name, and the name that its next
/// directive gives is held by none of them.
pub proof fn lemma_cache_names_unique(cache: StatementCache, i: int, j: int)
    requires
        cache.wf(),
        0 <= i < cache.entries().len(),
        0 <= j < cache.entries().len(),
    ensures
        i != j ==> cache.entries()[i].statement@.name != cache.entries()[j].statement@.name,
        cache.entries()[i].statement@.name != cached_name(cache.next_counter()),
{
    if i < j {
        lemma_cached_names_distinct(cache.entries()[i].counter, cache.entries()[j].counter);
    } else if j < i {
        lemma_cached_names_distinct(cache.entries()[j].counter, cache.entries()[i].counter);
    }
    lemma_cached_names_distinct(cache.entries()[i].counter, cache.next_counter());
}

/// Once a statement prepared on a miss is recorded, its SQL text and parameter types are a hit:
/// the one statement that the cache keeps for them is the one recorded.
pub proof fn lemma_recorded_miss_becomes_hit(before: StatementCache, after: StatementCache, statement: Statement)
    requires
        before.wf(),
        after.wf(),
        after.entries() == before.entries().push(CacheEntry { counter: before.next_counter(), statement }),
    ensures
        forall|i: int|
            0 <= i < after.entries().len() ==> (has_key(#[trigger] after.entries()[i], statement@.sql, statement@.param_types)
                <==> i == before.entries().len()),
        after.entries()[before.entries().len() as int].statement == statement,
{
    let n = before.entries().len() as int;
    assert forall|i: int|
        0 <= i < after.entries().len() implies (has_key(#[trigger] after.entries()[i], statement@.sql, statement@.param_types)
            <==> i == n) by {
        if i < n {
            assert(!has_key(after.entries()[n], after.entries()[i].statement@.sql, after.entries()[i].statement@.param_types));
        }
    }
}

} // verus!
