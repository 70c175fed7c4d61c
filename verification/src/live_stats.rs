//! In-process counters that a monitor reads back without scraping the metric registry.

use vstd::prelude::*;

use crate::table::NameTable;
use crate::text;

verus! {

/// Cumulative counters of one storage backend.
#[derive(Debug, Clone, Copy, PartialEq, Eq)]
pub struct StorageCounters {
    pub put_ops: u64,
    pub get_ops: u64,
    pub put_bytes: u64,
    pub get_bytes: u64,
    pub errors: u64,
}

/// Backpressure counters of one pool backend.
#[derive(Debug, Clone, Copy, PartialEq, Eq)]
pub struct PoolCounters {
    pub waits_total: u64,
    /// Signed: the two sides of a wait may be counted out of order.
    pub waiters_now: i64,
}

/// Deduplication byte totals of one backend: every byte sealed, and those that grew the
/// pool. Neither ever decreases on eviction or delete.
#[derive(Debug, Clone, Copy, PartialEq, Eq)]
pub struct ChunkCounters {
    pub logical_bytes: u64,
    pub unique_bytes: u64,
}

/// Plain copy of [`StorageCounters`].
#[derive(Debug, Clone, Copy, PartialEq, Eq)]
pub struct StorageSnapshot {
    pub put_ops: u64,
    pub get_ops: u64,
    pub put_bytes: u64,
    pub get_bytes: u64,
    pub errors: u64,
}

/// Plain copy of [`PoolCounters`].
#[derive(Debug, Clone, Copy, PartialEq, Eq)]
pub struct PoolSnapshot {
    pub waits_total: u64,
    pub waiters_now: i64,
}

/// Plain copy of [`ChunkCounters`].
#[derive(Debug, Clone, Copy, PartialEq, Eq)]
pub struct ChunkSnapshot {
    pub logical_bytes: u64,
    pub unique_bytes: u64,
}

/// Counters that have seen nothing.
pub open spec fn zero_storage() -> StorageCounters {
    StorageCounters { put_ops: 0, get_ops: 0, put_bytes: 0, get_bytes: 0, errors: 0 }
}

/// Counters that have seen nothing.
pub open spec fn zero_pool() -> PoolCounters {
    PoolCounters { waits_total: 0, waiters_now: 0 }
}

/// Counters that have seen nothing.
pub open spec fn zero_chunk() -> ChunkCounters {
    ChunkCounters { logical_bytes: 0, unique_bytes: 0 }
}

/// Counter addition: wraps around at the end of the range.
pub open spec fn wrapped_sum(a: u64, b: u64) -> u64 {
    ((a + b) % 0x1_0000_0000_0000_0000) as u64
}

/// One more, wrapping around.
pub open spec fn wrapped_inc(a: i64) -> i64 {
    if a == i64::MAX {
        i64::MIN
    } else {
        (a + 1) as i64
    }
}

/// One less, wrapping around.
pub open spec fn wrapped_dec(a: i64) -> i64 {
    if a == i64::MIN {
        i64::MAX
    } else {
        (a - 1) as i64
    }
}

/// The counters after one request. Bytes are credited on successful puts and gets only.
pub open spec fn storage_after(
    c: StorageCounters,
    op: Seq<char>,
    outcome: Seq<char>,
    bytes: u64,
) -> StorageCounters {
    let put = op == "put"@;
    let get = !put && op == "get"@;
    let ok = outcome == "ok"@;
    StorageCounters {
        put_ops: if put {
            wrapped_sum(c.put_ops, 1)
        } else {
            c.put_ops
        },
        get_ops: if get {
            wrapped_sum(c.get_ops, 1)
        } else {
            c.get_ops
        },
        put_bytes: if put && ok {
            wrapped_sum(c.put_bytes, bytes)
        } else {
            c.put_bytes
        },
        get_bytes: if get && ok {
            wrapped_sum(c.get_bytes, bytes)
        } else {
            c.get_bytes
        },
        errors: if outcome == "error"@ {
            wrapped_sum(c.errors, 1)
        } else {
            c.errors
        },
    }
}

/// The snapshot of storage counters.
pub open spec fn storage_copy(c: StorageCounters) -> StorageSnapshot {
    StorageSnapshot {
        put_ops: c.put_ops,
        get_ops: c.get_ops,
        put_bytes: c.put_bytes,
        get_bytes: c.get_bytes,
        errors: c.errors,
    }
}

/// The snapshot of pool counters.
pub open spec fn pool_copy(c: PoolCounters) -> PoolSnapshot {
    PoolSnapshot { waits_total: c.waits_total, waiters_now: c.waiters_now }
}

/// The snapshot of chunk counters.
pub open spec fn chunk_copy(c: ChunkCounters) -> ChunkSnapshot {
    ChunkSnapshot { logical_bytes: c.logical_bytes, unique_bytes: c.unique_bytes }
}

fn sum_wrapping(a: u64, b: u64) -> (r: u64)
    ensures
        r == wrapped_sum(a, b),
{
    let total: u128 = a as u128 + b as u128;
    (total % 0x1_0000_0000_0000_0000u128) as u64
}

impl Default for StorageCounters {
    fn default() -> (r: Self)
        ensures
            r == zero_storage(),
    {
        StorageCounters { put_ops: 0, get_ops: 0, put_bytes: 0, get_bytes: 0, errors: 0 }
    }
}

impl Default for PoolCounters {
    fn default() -> (r: Self)
        ensures
            r == zero_pool(),
    {
        PoolCounters { waits_total: 0, waiters_now: 0 }
    }
}

impl Default for ChunkCounters {
    fn default() -> (r: Self)
        ensures
            r == zero_chunk(),
    {
        ChunkCounters { logical_bytes: 0, unique_bytes: 0 }
    }
}

impl StorageCounters {
    /// A plain copy.
    pub fn snapshot(&self) -> (r: StorageSnapshot)
        ensures
            r == storage_copy(*self),
    {
        StorageSnapshot {
            put_ops: self.put_ops,
            get_ops: self.get_ops,
            put_bytes: self.put_bytes,
            get_bytes: self.get_bytes,
            errors: self.errors,
        }
    }
}

impl PoolCounters {
    /// A plain copy.
    pub fn snapshot(&self) -> (r: PoolSnapshot)
        ensures
            r == pool_copy(*self),
    {
        PoolSnapshot { waits_total: self.waits_total, waiters_now: self.waiters_now }
    }
}

impl ChunkCounters {
    /// A plain copy.
    pub fn snapshot(&self) -> (r: ChunkSnapshot)
        ensures
            r == chunk_copy(*self),
    {
        ChunkSnapshot { logical_bytes: self.logical_bytes, unique_bytes: self.unique_bytes }
    }
}

/// The counters of every backend, by name.
pub struct LiveStats {
    storage: NameTable<StorageCounters>,
    pool: NameTable<PoolCounters>,
    chunk: NameTable<ChunkCounters>,
    /// Audit entries appended since start.
    pub audit_entries_total: u64,
}

/// The abstract counters.
pub struct LiveStatsView {
    pub storage: Map<Seq<char>, StorageCounters>,
    pub pool: Map<Seq<char>, PoolCounters>,
    pub chunk: Map<Seq<char>, ChunkCounters>,
    pub audit_entries_total: u64,
}

impl LiveStatsView {
    /// The storage counters of a backend; zero before its first request.
    pub open spec fn storage_of(self, backend: Seq<char>) -> StorageCounters {
        if self.storage.contains_key(backend) {
            self.storage[backend]
        } else {
            zero_storage()
        }
    }

    /// The pool counters of a backend; zero before its first wait.
    pub open spec fn pool_of(self, backend: Seq<char>) -> PoolCounters {
        if self.pool.contains_key(backend) {
            self.pool[backend]
        } else {
            zero_pool()
        }
    }

    /// The chunk counters of a backend; zero before its first seal.
    pub open spec fn chunk_of(self, backend: Seq<char>) -> ChunkCounters {
        if self.chunk.contains_key(backend) {
            self.chunk[backend]
        } else {
            zero_chunk()
        }
    }

    /// With the storage counters of `backend` replaced.
    pub open spec fn with_storage(self, backend: Seq<char>, c: StorageCounters) -> LiveStatsView {
        LiveStatsView { storage: self.storage.insert(backend, c), ..self }
    }

    /// With the pool counters of `backend` replaced.
    pub open spec fn with_pool(self, backend: Seq<char>, c: PoolCounters) -> LiveStatsView {
        LiveStatsView { pool: self.pool.insert(backend, c), ..self }
    }

    /// With the chunk counters of `backend` replaced.
    pub open spec fn with_chunk(self, backend: Seq<char>, c: ChunkCounters) -> LiveStatsView {
        LiveStatsView { chunk: self.chunk.insert(backend, c), ..self }
    }

    /// After one storage request.
    pub open spec fn storage_op(
        self,
        backend: Seq<char>,
        op: Seq<char>,
        outcome: Seq<char>,
        bytes: u64,
    ) -> LiveStatsView {
        self.with_storage(backend, storage_after(self.storage_of(backend), op, outcome, bytes))
    }

    /// After one completed wait for pool room.
    pub open spec fn pool_wait(self, backend: Seq<char>) -> LiveStatsView {
        let c = self.pool_of(backend);
        self.with_pool(backend, PoolCounters { waits_total: wrapped_sum(c.waits_total, 1), ..c })
    }

    /// After sealing `bytes`.
    pub open spec fn logical_bytes(self, backend: Seq<char>, bytes: u64) -> LiveStatsView {
        let c = self.chunk_of(backend);
        self.with_chunk(
            backend,
            ChunkCounters { logical_bytes: wrapped_sum(c.logical_bytes, bytes), ..c },
        )
    }

    /// After growing the pool by `bytes`.
    pub open spec fn unique_bytes(self, backend: Seq<char>, bytes: u64) -> LiveStatsView {
        let c = self.chunk_of(backend);
        self.with_chunk(
            backend,
            ChunkCounters { unique_bytes: wrapped_sum(c.unique_bytes, bytes), ..c },
        )
    }

    /// After one more waiter arrived.
    pub open spec fn waiter_in(self, backend: Seq<char>) -> LiveStatsView {
        let c = self.pool_of(backend);
        self.with_pool(backend, PoolCounters { waiters_now: wrapped_inc(c.waiters_now), ..c })
    }

    /// After one waiter left.
    pub open spec fn waiter_out(self, backend: Seq<char>) -> LiveStatsView {
        let c = self.pool_of(backend);
        self.with_pool(backend, PoolCounters { waiters_now: wrapped_dec(c.waiters_now), ..c })
    }

    /// After one audit entry.
    pub open spec fn audit_entry(self) -> LiveStatsView {
        LiveStatsView { audit_entries_total: wrapped_sum(self.audit_entries_total, 1), ..self }
    }
}

impl View for LiveStats {
    type V = LiveStatsView;

    closed spec fn view(&self) -> LiveStatsView {
        LiveStatsView {
            storage: self.storage@,
            pool: self.pool@,
            chunk: self.chunk@,
            audit_entries_total: self.audit_entries_total,
        }
    }
}

/// Plain-data copy of all counters.
#[derive(Debug, Clone)]
pub struct LiveStatsSnapshot {
    pub storage: NameTable<StorageSnapshot>,
    pub pool: NameTable<PoolSnapshot>,
    pub chunk: NameTable<ChunkSnapshot>,
    pub audit_entries_total: u64,
}

impl LiveStatsSnapshot {
    /// The tables can be searched.
    pub open spec fn wf(&self) -> bool {
        self.storage.wf() && self.pool.wf() && self.chunk.wf()
    }

    /// This snapshot shows exactly the counters of `v`.
    pub open spec fn shows(&self, v: LiveStatsView) -> bool {
        &&& self.storage@ == v.storage.map_values(|c: StorageCounters| storage_copy(c))
        &&& self.pool@ == v.pool.map_values(|c: PoolCounters| pool_copy(c))
        &&& self.chunk@ == v.chunk.map_values(|c: ChunkCounters| chunk_copy(c))
        &&& self.audit_entries_total == v.audit_entries_total
    }
}

impl Default for LiveStats {
    fn default() -> (r: Self)
        ensures
            r.wf(),
            r@ == (LiveStatsView {
                storage: Map::empty(),
                pool: Map::empty(),
                chunk: Map::empty(),
                audit_entries_total: 0,
            }),
    {
        LiveStats {
            storage: NameTable::new(),
            pool: NameTable::new(),
            chunk: NameTable::new(),
            audit_entries_total: 0,
        }
    }
}

impl LiveStats {
    /// The tables can be searched.
    pub closed spec fn wf(&self) -> bool {
        self.storage.wf() && self.pool.wf() && self.chunk.wf()
    }

    /// The storage counters of `backend`; zero before the first record.
    pub fn storage_for(&self, backend: &str) -> (r: StorageCounters)
        requires
            self.wf(),
        ensures
            r == self@.storage_of(backend@),
    {
        match self.storage.get(backend) {
            Some(c) => *c,
            None => StorageCounters::default(),
        }
    }

    /// The pool counters of `backend`; zero before the first record.
    pub fn pool_for(&self, backend: &str) -> (r: PoolCounters)
        requires
            self.wf(),
        ensures
            r == self@.pool_of(backend@),
    {
        match self.pool.get(backend) {
            Some(c) => *c,
            None => PoolCounters::default(),
        }
    }

    /// The chunk counters of `backend`; zero before the first record.
    pub fn chunk_for(&self, backend: &str) -> (r: ChunkCounters)
        requires
            self.wf(),
        ensures
            r == self@.chunk_of(backend@),
    {
        match self.chunk.get(backend) {
            Some(c) => *c,
            None => ChunkCounters::default(),
        }
    }

    /// Counts one request. `op` is one of `put`, `get`, `head`, `delete`; `outcome` is `ok` or
    /// `error`.
    pub fn record_storage_op(&mut self, backend: &str, op: &str, outcome: &str, bytes: u64)
        requires
            old(self).wf(),
        ensures
            final(self).wf(),
            final(self)@ == old(self)@.storage_op(backend@, op@, outcome@, bytes),
    {
        let mut c = self.storage_for(backend);
        if text::same(outcome, "error") {
            c.errors = sum_wrapping(c.errors, 1);
        }
        if text::same(op, "put") {
            c.put_ops = sum_wrapping(c.put_ops, 1);
            if text::same(outcome, "ok") {
                c.put_bytes = sum_wrapping(c.put_bytes, bytes);
            }
        } else if text::same(op, "get") {
            c.get_ops = sum_wrapping(c.get_ops, 1);
            if text::same(outcome, "ok") {
                c.get_bytes = sum_wrapping(c.get_bytes, bytes);
            }
        }
        self.storage.insert(backend, c);
    }

    /// Counts one completed wait, whether it succeeded or timed out.
    pub fn record_pool_wait(&mut self, backend: &str)
        requires
            old(self).wf(),
        ensures
            final(self).wf(),
            final(self)@ == old(self)@.pool_wait(backend@),
    {
        let mut c = self.pool_for(backend);
        c.waits_total = sum_wrapping(c.waits_total, 1);
        self.pool.insert(backend, c);
    }

    /// Adds sealed bytes.
    pub fn record_chunk_logical_bytes(&mut self, backend: &str, bytes: u64)
        requires
            old(self).wf(),
        ensures
            final(self).wf(),
            final(self)@ == old(self)@.logical_bytes(backend@, bytes),
    {
        let mut c = self.chunk_for(backend);
        c.logical_bytes = sum_wrapping(c.logical_bytes, bytes);
        self.chunk.insert(backend, c);
    }

    /// Adds bytes that grew the pool.
    pub fn record_chunk_unique_bytes(&mut self, backend: &str, bytes: u64)
        requires
            old(self).wf(),
        ensures
            final(self).wf(),
            final(self)@ == old(self)@.unique_bytes(backend@, bytes),
    {
        let mut c = self.chunk_for(backend);
        c.unique_bytes = sum_wrapping(c.unique_bytes, bytes);
        self.chunk.insert(backend, c);
    }

    /// A wait begins.
    pub fn inc_waiters(&mut self, backend: &str)
        requires
            old(self).wf(),
        ensures
            final(self).wf(),
            final(self)@ == old(self)@.waiter_in(backend@),
    {
        let mut c = self.pool_for(backend);
        c.waiters_now = if c.waiters_now == i64::MAX {
            i64::MIN
        } else {
            c.waiters_now + 1
        };
        self.pool.insert(backend, c);
    }

    /// A wait ends.
    pub fn dec_waiters(&mut self, backend: &str)
        requires
            old(self).wf(),
        ensures
            final(self).wf(),
            final(self)@ == old(self)@.waiter_out(backend@),
    {
        let mut c = self.pool_for(backend);
        c.waiters_now = if c.waiters_now == i64::MIN {
            i64::MAX
        } else {
            c.waiters_now - 1
        };
        self.pool.insert(backend, c);
    }

    /// Counts one audit entry.
    pub fn record_audit_entry(&mut self)
        requires
            old(self).wf(),
        ensures
            final(self).wf(),
            final(self)@ == old(self)@.audit_entry(),
    {
        self.audit_entries_total = sum_wrapping(self.audit_entries_total, 1);
    }

    /// A plain copy of all counters.
    pub fn snapshot(&self) -> (r: LiveStatsSnapshot)
        requires
            self.wf(),
        ensures
            r.wf(),
            r.shows(self@),
    {
        LiveStatsSnapshot {
            storage: copy_storage(&self.storage),
            pool: copy_pool(&self.pool),
            chunk: copy_chunk(&self.chunk),
            audit_entries_total: self.audit_entries_total,
        }
    }
}

/// The snapshots of a table of storage counters.
fn copy_storage(table: &NameTable<StorageCounters>) -> (r: NameTable<StorageSnapshot>)
    requires
        table.wf(),
    ensures
        r.wf(),
        r@ == table@.map_values(|c: StorageCounters| storage_copy(c)),
{
    let mut out: NameTable<StorageSnapshot> = NameTable::new();
    let mut i: usize = 0;
    let ghost names = table.names();
    proof {
        table.lemma_names();
    }
    while i < table.len()
        invariant
            table.wf(),
            out.wf(),
            names == table.names(),
            i <= names.len(),
            names.no_duplicates(),
            forall|k: Seq<char>| #[trigger] out@.contains_key(k) <==> names.take(i as int).contains(k),
            forall|k: Seq<char>| #[trigger] out@.contains_key(k) ==> table@.contains_key(k) && out@[k] == storage_copy(table@[k]),
        decreases names.len() - i,
    {
        out.insert(table.name_at(i), table.value_at(i).snapshot());
        proof {
            assert(names.take(i + 1) =~= names.take(i as int).push(names[i as int]));
            assert forall|k: Seq<char>| #[trigger] out@.contains_key(k) <==> names.take(i + 1).contains(k) by {
                let before = names.take(i as int);
                let after = names.take(i + 1);
                if before.contains(k) {
                    let j = choose|j: int| 0 <= j < before.len() && before[j] == k;
                    assert(after[j] == k);
                }
                if after.contains(k) && k != names[i as int] {
                    let j = choose|j: int| 0 <= j < after.len() && after[j] == k;
                    assert(before[j] == k);
                }
                assert(after[i as int] == names[i as int]);
            }
        }
        i += 1;
    }
    proof {
        assert(names.take(i as int) =~= names);
        assert(out@ =~= table@.map_values(|c: StorageCounters| storage_copy(c)));
    }
    out
}

/// The snapshots of a table of pool counters.
fn copy_pool(table: &NameTable<PoolCounters>) -> (r: NameTable<PoolSnapshot>)
    requires
        table.wf(),
    ensures
        r.wf(),
        r@ == table@.map_values(|c: PoolCounters| pool_copy(c)),
{
    let mut out: NameTable<PoolSnapshot> = NameTable::new();
    let mut i: usize = 0;
    let ghost names = table.names();
    proof {
        table.lemma_names();
    }
    while i < table.len()
        invariant
            table.wf(),
            out.wf(),
            names == table.names(),
            i <= names.len(),
            names.no_duplicates(),
            forall|k: Seq<char>| #[trigger] out@.contains_key(k) <==> names.take(i as int).contains(k),
            forall|k: Seq<char>| #[trigger] out@.contains_key(k) ==> table@.contains_key(k) && out@[k] == pool_copy(table@[k]),
        decreases names.len() - i,
    {
        out.insert(table.name_at(i), table.value_at(i).snapshot());
        proof {
            assert(names.take(i + 1) =~= names.take(i as int).push(names[i as int]));
            assert forall|k: Seq<char>| #[trigger] out@.contains_key(k) <==> names.take(i + 1).contains(k) by {
                let before = names.take(i as int);
                let after = names.take(i + 1);
                if before.contains(k) {
                    let j = choose|j: int| 0 <= j < before.len() && before[j] == k;
                    assert(after[j] == k);
                }
                if after.contains(k) && k != names[i as int] {
                    let j = choose|j: int| 0 <= j < after.len() && after[j] == k;
                    assert(before[j] == k);
                }
                assert(after[i as int] == names[i as int]);
            }
        }
        i += 1;
    }
    proof {
        assert(names.take(i as int) =~= names);
        assert(out@ =~= table@.map_values(|c: PoolCounters| pool_copy(c)));
    }
    out
}

/// The snapshots of a table of chunk counters.
fn copy_chunk(table: &NameTable<ChunkCounters>) -> (r: NameTable<ChunkSnapshot>)
    requires
        table.wf(),
    ensures
        r.wf(),
        r@ == table@.map_values(|c: ChunkCounters| chunk_copy(c)),
{
    let mut out: NameTable<ChunkSnapshot> = NameTable::new();
    let mut i: usize = 0;
    let ghost names = table.names();
    proof {
        table.lemma_names();
    }
    while i < table.len()
        invariant
            table.wf(),
            out.wf(),
            names == table.names(),
            i <= names.len(),
            names.no_duplicates(),
            forall|k: Seq<char>| #[trigger] out@.contains_key(k) <==> names.take(i as int).contains(k),
            forall|k: Seq<char>| #[trigger] out@.contains_key(k) ==> table@.contains_key(k) && out@[k] == chunk_copy(table@[k]),
        decreases names.len() - i,
    {
        out.insert(table.name_at(i), table.value_at(i).snapshot());
        proof {
            assert(names.take(i + 1) =~= names.take(i as int).push(names[i as int]));
            assert forall|k: Seq<char>| #[trigger] out@.contains_key(k) <==> names.take(i + 1).contains(k) by {
                let before = names.take(i as int);
                let after = names.take(i + 1);
                if before.contains(k) {
                    let j = choose|j: int| 0 <= j < before.len() && before[j] == k;
                    assert(after[j] == k);
                }
                if after.contains(k) && k != names[i as int] {
                    let j = choose|j: int| 0 <= j < after.len() && after[j] == k;
                    assert(before[j] == k);
                }
                assert(after[i as int] == names[i as int]);
            }
        }
        i += 1;
    }
    proof {
        assert(names.take(i as int) =~= names);
        assert(out@ =~= table@.map_values(|c: ChunkCounters| chunk_copy(c)));
    }
    out
}

/// A snapshot taken after counting shows what was counted, and nothing else moved: sealing
/// under either scope of one backend adds up in one pair of totals, another backend keeps
/// its own.
pub proof fn law_chunk_totals_add_up_per_backend(
    v: LiveStatsView,
    backend: Seq<char>,
    other: Seq<char>,
    a: u64,
    b: u64,
)
    requires
        other != backend,
    ensures
        ({
            let w = v.logical_bytes(backend, a).unique_bytes(backend, b).logical_bytes(backend, b);
            &&& w.chunk_of(backend).logical_bytes == (v.chunk_of(backend).logical_bytes + a + b)
                % 0x1_0000_0000_0000_0000
            &&& w.chunk_of(backend).unique_bytes == (v.chunk_of(backend).unique_bytes + b)
                % 0x1_0000_0000_0000_0000
            &&& w.chunk_of(other) == v.chunk_of(other)
            &&& w.storage == v.storage
            &&& w.pool == v.pool
        }),
{
}

/// A wait that begins and ends leaves the number of waiters as it was.
pub proof fn law_waiters_balance(v: LiveStatsView, backend: Seq<char>, other: Seq<char>)
    ensures
        v.waiter_in(backend).waiter_out(backend).pool_of(backend) == v.pool_of(backend),
        other != backend ==> v.waiter_in(backend).waiter_out(backend).pool_of(other) == v.pool_of(
            other,
        ),
{
}

/// Bytes are credited to successful puts and gets only; errors are counted whatever the
/// operation.
pub proof fn law_only_successful_transfers_count_bytes(
    c: StorageCounters,
    op: Seq<char>,
    outcome: Seq<char>,
    bytes: u64,
)
    ensures
        outcome != "ok"@ ==> storage_after(c, op, outcome, bytes).put_bytes == c.put_bytes
            && storage_after(c, op, outcome, bytes).get_bytes == c.get_bytes,
        op != "put"@ && op != "get"@ ==> storage_after(c, op, outcome, bytes).put_ops == c.put_ops
            && storage_after(c, op, outcome, bytes).get_ops == c.get_ops,
        (storage_after(c, op, outcome, bytes).errors != c.errors) <==> outcome == "error"@,
{
}

} // verus!
