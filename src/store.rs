use crate::snapshot::{cores_in_range, AppSystemInfo, SnapshotView};
use vstd::prelude::*;

verus! {

/// A snapshot handed out by a store, with the index of the publish that made it.
#[derive(Debug, PartialEq, Eq)]
pub struct SnapshotCopy {
    /// How many publishes the store had taken when this copy was made.
    pub publish_index: u64,
    pub info: AppSystemInfo,
}

/// Holds the current snapshot. One producer replaces it wholesale; readers get
/// whole copies. The first publish fixes the number of cores: later snapshots
/// are cut to that many cores, or padded with zero utilisation up to it.
pub struct MetricsStore {
    current: AppSystemInfo,
    version: u64,
}

/// The state of a store: its current snapshot and how many publishes it has taken.
pub struct StoreView {
    pub current: SnapshotView,
    pub version: u64,
}

impl StoreView {
    /// The current snapshot is consistent, and it is the zero snapshot until
    /// the first publish.
    pub open spec fn wf(self) -> bool {
        &&& self.current.wf()
        &&& self.version == 0 ==> self.current == SnapshotView::zero()
    }

    /// The state of a store that was just created.
    pub open spec fn initial() -> StoreView {
        StoreView { current: SnapshotView::zero(), version: 0 }
    }
}

impl View for MetricsStore {
    type V = StoreView;

    closed spec fn view(&self) -> StoreView {
        StoreView { current: self.current@, version: self.version }
    }
}

/// `cores` cut or padded with zeros to exactly `n` entries.
pub open spec fn fit_cores(cores: Seq<u32>, n: nat) -> Seq<u32> {
    Seq::new(n, |i: int| if i < cores.len() { cores[i] } else { 0 })
}

/// The number of cores that a publish of `s` into `m` keeps: that of `s` for the
/// first publish, the number already fixed afterwards.
pub open spec fn kept_core_count(m: StoreView, s: SnapshotView) -> nat {
    if m.version == 0 {
        s.cores.len()
    } else {
        m.current.cpu_count as nat
    }
}

/// `s` as a publish into `m` stores it: every field from `s`, the cores fitted
/// to the kept core count.
pub open spec fn stored(m: StoreView, s: SnapshotView) -> SnapshotView {
    let n = kept_core_count(m, s);
    SnapshotView {
        cpu_count: n as usize,
        total_mem: s.total_mem,
        mem_usage: s.mem_usage,
        total_swap: s.total_swap,
        swap_usage: s.swap_usage,
        cores: fit_cores(s.cores, n),
        load_average: s.load_average,
        networks: s.networks,
    }
}

/// The state after publishing `s` into `m`. The publish index counts up and
/// stays at its largest value once it gets there.
pub open spec fn published(m: StoreView, s: SnapshotView) -> StoreView {
    StoreView {
        current: stored(m, s),
        version: if m.version < u64::MAX {
            (m.version + 1) as u64
        } else {
            m.version
        },
    }
}

/// What a read of `m` returns: nothing before the first publish, else the
/// publish index and the current snapshot.
pub open spec fn read_result(m: StoreView) -> Option<(u64, SnapshotView)> {
    if m.version == 0 {
        None
    } else {
        Some((m.version, m.current))
    }
}

/// An operation on a store: a publish of a snapshot, or a read.
pub enum StoreEvent {
    Publish(SnapshotView),
    Read,
}

/// The state of a store after one operation.
pub open spec fn after(m: StoreView, e: StoreEvent) -> StoreView {
    match e {
        StoreEvent::Publish(s) => published(m, s),
        StoreEvent::Read => m,
    }
}

/// The state of a store after a series of operations, in order.
pub open spec fn run(m: StoreView, es: Seq<StoreEvent>) -> StoreView
    decreases es.len(),
{
    if es.len() == 0 {
        m
    } else {
        after(run(m, es.drop_last()), es.last())
    }
}

impl MetricsStore {
    /// A store holding the zero snapshot, with no publish taken yet.
    pub fn new() -> (r: MetricsStore)
        ensures
            r@ == StoreView::initial(),
            r@.wf(),
    {
        MetricsStore { current: AppSystemInfo::zeroed(), version: 0 }
    }

    /// The number of publishes taken so far.
    pub fn publish_index(&self) -> (r: u64)
        ensures
            r == self@.version,
    {
        self.version
    }

    /// The number of cores of the current snapshot: 0 until the first publish,
    /// fixed by it afterwards.
    pub fn cpu_count(&self) -> (r: usize)
        ensures
            r == self@.current.cpu_count,
    {
        self.current.cpu_count
    }

    /// Replaces the current snapshot with `s` as a whole, with its cores fitted
    /// to the kept core count.
    pub fn publish(&mut self, s: AppSystemInfo)
        requires
            old(self)@.wf(),
            s@.wf(),
        ensures
            final(self)@ == published(old(self)@, s@),
            final(self)@.wf(),
    {
        let n: usize = if self.version == 0 {
            s.cpu_usage_per_cpu.len()
        } else {
            self.current.cpu_count
        };
        let mut cores: Vec<u32> = Vec::new();
        let mut i: usize = 0;
        while i < n
            invariant
                0 <= i <= n,
                cores@ == fit_cores(s@.cores, n as nat).take(i as int),
                cores_in_range(s@.cores),
            decreases n - i,
        {
            let v: u32 = if i < s.cpu_usage_per_cpu.len() {
                s.cpu_usage_per_cpu[i]
            } else {
                0
            };
            cores.push(v);
            assert(cores@ =~= fit_cores(s@.cores, n as nat).take(i as int + 1));
            i = i + 1;
        }
        assert(cores@ =~= fit_cores(s@.cores, n as nat));
        let AppSystemInfo {
            cpu_count: _,
            total_mem,
            mem_usage,
            total_swap,
            swap_usage,
            cpu_usage_per_cpu: _,
            load_average,
            networks,
        } = s;
        self.current =
        AppSystemInfo {
            cpu_count: n,
            total_mem,
            mem_usage,
            total_swap,
            swap_usage,
            cpu_usage_per_cpu: cores,
            load_average,
            networks,
        };
        if self.version < u64::MAX {
            self.version = self.version + 1;
        }
    }

    /// A copy of the current snapshot with its publish index, or `None` while
    /// nothing has been published yet.
    pub fn try_read(&self) -> (r: Option<SnapshotCopy>)
        ensures
            r is None <==> read_result(self@) is None,
            r matches Some(c) ==> read_result(self@) == Some((c.publish_index, c.info@)),
    {
        if self.version == 0 {
            None
        } else {
            Some(SnapshotCopy { publish_index: self.version, info: self.current.copy_snapshot() })
        }
    }
}


/// A publish of `s` followed by `k` reads.
pub open spec fn publish_then_reads(s: SnapshotView, k: nat) -> Seq<StoreEvent> {
    seq![StoreEvent::Publish(s)] + Seq::new(k, |_i: int| StoreEvent::Read)
}

/// Reads do not change a store.
pub proof fn lemma_reads_keep_state(m: StoreView, s: SnapshotView, k: nat)
    ensures
        run(m, publish_then_reads(s, k)) == published(m, s),
    decreases k,
{
    let es = publish_then_reads(s, k);
    if k == 0 {
        assert(es.drop_last() =~= Seq::<StoreEvent>::empty());
        assert(run(m, es.drop_last()) == m);
        assert(es.last() == StoreEvent::Publish(s));
    } else {
        lemma_reads_keep_state(m, s, (k - 1) as nat);
        assert(es.drop_last() =~= publish_then_reads(s, (k - 1) as nat));
        assert(es.last() == StoreEvent::Read);
    }
}

/// A read that comes after a publish of `s`, with no other publish in between,
/// returns the snapshot of that publish whole: every field taken from `s` (its
/// cores fitted to the kept core count), none from an earlier snapshot, and the
/// index of that publish. `m` is the store as the earlier publishes left it.
pub proof fn lemma_read_sees_one_publish(m: StoreView, s: SnapshotView, k: nat)
    ensures
        read_result(run(m, publish_then_reads(s, k))) == Some(
            (published(m, s).version, stored(m, s)),
        ),
        stored(m, s).total_mem == s.total_mem,
        stored(m, s).mem_usage == s.mem_usage,
        stored(m, s).total_swap == s.total_swap,
        stored(m, s).swap_usage == s.swap_usage,
        stored(m, s).load_average == s.load_average,
        stored(m, s).networks == s.networks,
        stored(m, s).cores.len() == kept_core_count(m, s),
        forall|i: int|
            0 <= i < stored(m, s).cores.len() && i < s.cores.len() ==> #[trigger] stored(
                m,
                s,
            ).cores[i] == s.cores[i],
{
    lemma_reads_keep_state(m, s, k);
}

/// Publish indices never go back: a read that comes after another read sees an
/// index at least as large, and once a read has seen a snapshot, every later
/// read sees one.
pub proof fn lemma_publish_index_monotonic(m: StoreView, es: Seq<StoreEvent>, i: int, j: int)
    requires
        0 <= i <= j <= es.len(),
    ensures
        run(m, es.take(i)).version <= run(m, es.take(j)).version,
        read_result(run(m, es.take(i))) matches Some(a) ==> (read_result(
            run(m, es.take(j)),
        ) matches Some(b) && a.0 <= b.0),
    decreases j - i,
{
    if i < j {
        lemma_publish_index_monotonic(m, es, i, j - 1);
        assert(es.take(j).drop_last() =~= es.take(j - 1));
    }
}

/// Once a publish has fixed the number of cores at `N`, every later snapshot has
/// exactly `N` cores, whatever number the later publishes bring.
pub proof fn lemma_core_count_stable(m: StoreView, es: Seq<StoreEvent>)
    requires
        m.wf(),
        m.version > 0,
    ensures
        run(m, es).version > 0,
        run(m, es).current.cpu_count == m.current.cpu_count,
        run(m, es).current.cores.len() == m.current.cores.len(),
    decreases es.len(),
{
    if es.len() > 0 {
        lemma_core_count_stable(m, es.drop_last());
    }
}

} // verus!
