use vstd::arithmetic::div_mod::lemma_multiply_divide_lt;
use vstd::prelude::*;

verus! {

/// The fixed-point value of 100%: percentages are kept in hundredths of a percent.
pub const FULL_PERCENT: u32 = 10000;

/// Cumulative packet counters of one network interface, counted since boot.
#[derive(Clone, Copy, Debug, PartialEq, Eq, Structural)]
pub struct NetworkInfo {
    pub rx: u64,
    pub tx: u64,
}

/// The 1, 5 and 15 minute load averages, each in hundredths.
#[derive(Clone, Copy, Debug, PartialEq, Eq, Structural)]
pub struct LoadAverage {
    pub one: u64,
    pub five: u64,
    pub fifteen: u64,
}

/// `part` as a share of `total`, in hundredths of a percent, rounded down and
/// clamped to `[0, FULL_PERCENT]`. A zero total gives zero.
pub open spec fn percent_of(part: int, total: int) -> int {
    if total <= 0 || part <= 0 {
        0
    } else if part >= total {
        FULL_PERCENT as int
    } else {
        part * (FULL_PERCENT as int) / total
    }
}

/// The share of `total` that `used` makes up, in hundredths of a percent.
/// A zero total yields zero rather than a division by zero.
pub fn used_percent(used: u64, total: u64) -> (r: u32)
    ensures
        r as int == percent_of(used as int, total as int),
        r <= FULL_PERCENT,
        total == 0 ==> r == 0,
{
    if total == 0 || used == 0 {
        0
    } else if used >= total {
        FULL_PERCENT
    } else {
        assert(used as int * 10000 <= u64::MAX as int * 10000) by (nonlinear_arith);
        let scaled: u128 = (used as u128) * (FULL_PERCENT as u128);
        let q: u128 = scaled / (total as u128);
        proof {
            assert(used as int * 10000 < total as int * 10000) by (nonlinear_arith)
                requires
                    (used as int) < (total as int),
            ;
            lemma_multiply_divide_lt(used as int * 10000, total as int, 10000);
        }
        q as u32
    }
}


/// The counters of one interface as the contracts see them: its name and counters.
pub open spec fn entry_view(e: (String, NetworkInfo)) -> (Seq<char>, NetworkInfo) {
    (e.0@, e.1)
}

/// A table of interfaces, with each name seen as its characters.
pub open spec fn net_view(t: Seq<(String, NetworkInfo)>) -> Seq<(Seq<char>, NetworkInfo)> {
    t.map_values(|e: (String, NetworkInfo)| entry_view(e))
}

/// No interface name occurs twice in the table.
pub open spec fn names_unique(t: Seq<(Seq<char>, NetworkInfo)>) -> bool {
    forall|i: int, j: int|
        0 <= i < t.len() && 0 <= j < t.len() && i != j ==> #[trigger] t[i].0 != #[trigger] t[j].0
}

/// The table holds an entry under `name`.
pub open spec fn has_name(t: Seq<(Seq<char>, NetworkInfo)>, name: Seq<char>) -> bool {
    exists|i: int| 0 <= i < t.len() && #[trigger] t[i].0 == name
}

/// Records `info` under `name`: the counters of an interface already in the table
/// are replaced in place, a new interface is appended at the end.
pub open spec fn table_insert(
    t: Seq<(Seq<char>, NetworkInfo)>,
    name: Seq<char>,
    info: NetworkInfo,
) -> Seq<(Seq<char>, NetworkInfo)> {
    if has_name(t, name) {
        let i = choose|i: int| 0 <= i < t.len() && #[trigger] t[i].0 == name;
        t.update(i, (name, info))
    } else {
        t.push((name, info))
    }
}

/// The table that results from recording `entries` one after the other into an
/// empty table: one entry per name, holding the counters given last for it.
pub open spec fn table_of(entries: Seq<(Seq<char>, NetworkInfo)>) -> Seq<(Seq<char>, NetworkInfo)>
    decreases entries.len(),
{
    if entries.len() == 0 {
        Seq::empty()
    } else {
        table_insert(table_of(entries.drop_last()), entries.last().0, entries.last().1)
    }
}

/// Records the counters `info` of interface `name` in `table`.
pub fn insert_network(table: &mut Vec<(String, NetworkInfo)>, name: String, info: NetworkInfo)
    requires
        names_unique(net_view(old(table)@)),
    ensures
        net_view(final(table)@) == table_insert(net_view(old(table)@), name@, info),
        names_unique(net_view(final(table)@)),
{
    let ghost t0 = net_view(table@);
    let ghost nm = name@;
    let n = table.len();
    let mut i: usize = 0;
    while i < n
        invariant
            n == table@.len(),
            t0 == net_view(table@),
            t0 == net_view(old(table)@),
            nm == name@,
            names_unique(t0),
            0 <= i <= n,
            forall|k: int| 0 <= k < i ==> #[trigger] t0[k].0 != name@,
        decreases n - i,
    {
        if table[i].0 == name {
            assert(t0[i as int].0 == name@);
            assert(has_name(t0, name@));
            let ghost c = choose|c: int| 0 <= c < t0.len() && #[trigger] t0[c].0 == name@;
            assert(c == i as int);
            assert(table_insert(t0, nm, info) == t0.update(i as int, (nm, info)));
            table.set(i, (name, info));
            assert(net_view(table@) =~= t0.update(i as int, (nm, info)));
            return;
        }
        i = i + 1;
    }
    assert(!has_name(t0, name@));
    table.push((name, info));
    assert(net_view(table@) =~= t0.push((name@, info)));
}

/// Builds the table of `entries`, recorded in order.
pub fn network_table(entries: &Vec<(String, NetworkInfo)>) -> (r: Vec<(String, NetworkInfo)>)
    ensures
        net_view(r@) == table_of(net_view(entries@)),
        names_unique(net_view(r@)),
{
    let mut r: Vec<(String, NetworkInfo)> = Vec::new();
    let ghost all = net_view(entries@);
    let mut i: usize = 0;
    assert(all.take(0) =~= Seq::<(Seq<char>, NetworkInfo)>::empty());
    assert(net_view(r@) =~= Seq::<(Seq<char>, NetworkInfo)>::empty());
    while i < entries.len()
        invariant
            all == net_view(entries@),
            0 <= i <= entries@.len(),
            net_view(r@) == table_of(all.take(i as int)),
            names_unique(net_view(r@)),
        decreases entries@.len() - i,
    {
        let name = entries[i].0.clone();
        let info = entries[i].1;
        insert_network(&mut r, name, info);
        assert(all.take(i as int + 1).drop_last() =~= all.take(i as int));
        i = i + 1;
    }
    assert(all.take(i as int) =~= all);
    r
}


/// One complete set of metric values, all taken in the same sampling pass.
#[derive(Debug, PartialEq, Eq)]
pub struct AppSystemInfo {
    /// Number of entries in `cpu_usage_per_cpu`.
    pub cpu_count: usize,
    /// Total physical memory, in KiB.
    pub total_mem: u64,
    /// Share of physical memory in use, in hundredths of a percent.
    pub mem_usage: u32,
    /// Total swap, in KiB.
    pub total_swap: u64,
    /// Share of swap in use, in hundredths of a percent.
    pub swap_usage: u32,
    /// Utilisation of each core, in hundredths of a percent.
    pub cpu_usage_per_cpu: Vec<u32>,
    pub load_average: LoadAverage,
    /// Cumulative packet counters per interface, one entry per interface name.
    pub networks: Vec<(String, NetworkInfo)>,
}

/// What a snapshot holds, with its sequences seen as values.
pub struct SnapshotView {
    pub cpu_count: usize,
    pub total_mem: u64,
    pub mem_usage: u32,
    pub total_swap: u64,
    pub swap_usage: u32,
    pub cores: Seq<u32>,
    pub load_average: LoadAverage,
    pub networks: Seq<(Seq<char>, NetworkInfo)>,
}

impl View for AppSystemInfo {
    type V = SnapshotView;

    open spec fn view(&self) -> SnapshotView {
        SnapshotView {
            cpu_count: self.cpu_count,
            total_mem: self.total_mem,
            mem_usage: self.mem_usage,
            total_swap: self.total_swap,
            swap_usage: self.swap_usage,
            cores: self.cpu_usage_per_cpu@,
            load_average: self.load_average,
            networks: net_view(self.networks@),
        }
    }
}

/// Every core's utilisation lies in `[0, FULL_PERCENT]`.
pub open spec fn cores_in_range(cores: Seq<u32>) -> bool {
    forall|i: int| 0 <= i < cores.len() ==> #[trigger] cores[i] <= FULL_PERCENT
}

impl SnapshotView {
    /// The snapshot is internally consistent: the core count matches the per-core
    /// values, every percentage lies in `[0, 100%]`, and interface names are unique.
    pub open spec fn wf(self) -> bool {
        &&& self.cpu_count == self.cores.len()
        &&& self.mem_usage <= FULL_PERCENT
        &&& self.swap_usage <= FULL_PERCENT
        &&& cores_in_range(self.cores)
        &&& names_unique(self.networks)
    }

    /// The all-zero snapshot that a store holds before its first publish.
    pub open spec fn zero() -> SnapshotView {
        SnapshotView {
            cpu_count: 0,
            total_mem: 0,
            mem_usage: 0,
            total_swap: 0,
            swap_usage: 0,
            cores: Seq::empty(),
            load_average: LoadAverage { one: 0, five: 0, fifteen: 0 },
            networks: Seq::empty(),
        }
    }
}

/// Copies the counters of every interface, in order.
fn copy_networks(t: &Vec<(String, NetworkInfo)>) -> (r: Vec<(String, NetworkInfo)>)
    ensures
        net_view(r@) == net_view(t@),
{
    let mut r: Vec<(String, NetworkInfo)> = Vec::new();
    let mut i: usize = 0;
    while i < t.len()
        invariant
            0 <= i <= t@.len(),
            r@.len() == i,
            net_view(r@) == net_view(t@).take(i as int),
        decreases t@.len() - i,
    {
        let name = t[i].0.clone();
        let ghost prev = r@;
        r.push((name, t[i].1));
        assert(r@ == prev.push((name, t@[i as int].1)));
        assert(entry_view(r@[i as int]) == entry_view(t@[i as int]));
        assert(net_view(r@)[i as int] == net_view(t@)[i as int]);
        assert(net_view(r@) =~= net_view(t@).take(i as int + 1));
        i = i + 1;
    }
    assert(net_view(t@).take(i as int) =~= net_view(t@));
    r
}

/// Copies a sequence of per-core values.
fn copy_cores(v: &Vec<u32>) -> (r: Vec<u32>)
    ensures
        r@ == v@,
{
    let mut r: Vec<u32> = Vec::new();
    let mut i: usize = 0;
    while i < v.len()
        invariant
            0 <= i <= v@.len(),
            r@ == v@.take(i as int),
        decreases v@.len() - i,
    {
        r.push(v[i]);
        assert(r@ =~= v@.take(i as int + 1));
        i = i + 1;
    }
    assert(v@.take(i as int) =~= v@);
    r
}

impl AppSystemInfo {
    /// The all-zero snapshot: no cores, no interfaces, every figure zero.
    pub fn zeroed() -> (r: AppSystemInfo)
        ensures
            r@ == SnapshotView::zero(),
            r@.wf(),
    {
        let r = AppSystemInfo {
            cpu_count: 0,
            total_mem: 0,
            mem_usage: 0,
            total_swap: 0,
            swap_usage: 0,
            cpu_usage_per_cpu: Vec::new(),
            load_average: LoadAverage { one: 0, five: 0, fifteen: 0 },
            networks: Vec::new(),
        };
        assert(r@.cores =~= Seq::<u32>::empty());
        assert(r@.networks =~= Seq::<(Seq<char>, NetworkInfo)>::empty());
        r
    }

    /// An independent copy holding the same values.
    pub fn copy_snapshot(&self) -> (r: AppSystemInfo)
        ensures
            r@ == self@,
    {
        AppSystemInfo {
            cpu_count: self.cpu_count,
            total_mem: self.total_mem,
            mem_usage: self.mem_usage,
            total_swap: self.total_swap,
            swap_usage: self.swap_usage,
            cpu_usage_per_cpu: copy_cores(&self.cpu_usage_per_cpu),
            load_average: self.load_average,
            networks: copy_networks(&self.networks),
        }
    }
}

impl Default for AppSystemInfo {
    fn default() -> (r: AppSystemInfo)
        ensures
            r@ == SnapshotView::zero(),
    {
        AppSystemInfo::zeroed()
    }
}

} // verus!
