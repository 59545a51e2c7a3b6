use crate::snapshot::{
    net_view, network_table, percent_of, table_of, used_percent, AppSystemInfo, LoadAverage,
    NetworkInfo, SnapshotView, FULL_PERCENT,
};
use crate::store::{published, MetricsStore};
use vstd::prelude::*;

verus! {

/// The raw figures that one refresh of the host gives.
pub struct HostReading {
    /// Utilisation of each core, in hundredths of a percent.
    pub cpu_usage: Vec<u32>,
    /// Physical memory, in KiB.
    pub total_memory: u64,
    pub available_memory: u64,
    /// Swap, in KiB.
    pub total_swap: u64,
    pub used_swap: u64,
    pub load_average: LoadAverage,
    /// Cumulative packet counters per interface, as the host lists them.
    pub networks: Vec<(String, NetworkInfo)>,
}

/// What a host reading holds, with its sequences seen as values.
pub struct HostReadingView {
    pub cores: Seq<u32>,
    pub total_memory: u64,
    pub available_memory: u64,
    pub total_swap: u64,
    pub used_swap: u64,
    pub load_average: LoadAverage,
    pub networks: Seq<(Seq<char>, NetworkInfo)>,
}

impl View for HostReading {
    type V = HostReadingView;

    open spec fn view(&self) -> HostReadingView {
        HostReadingView {
            cores: self.cpu_usage@,
            total_memory: self.total_memory,
            available_memory: self.available_memory,
            total_swap: self.total_swap,
            used_swap: self.used_swap,
            load_average: self.load_average,
            networks: net_view(self.networks@),
        }
    }
}

/// A core utilisation cut down to 100%.
pub open spec fn clamp_core(v: u32) -> u32 {
    if v > FULL_PERCENT {
        FULL_PERCENT
    } else {
        v
    }
}

/// The snapshot that a host reading gives: memory in use is the total less what
/// is available, swap in use is as reported, each as a share of its total (zero
/// when the total is zero); core values are cut down to 100%; interfaces are
/// recorded in the order listed, one entry per name.
pub open spec fn snapshot_of(r: HostReadingView) -> SnapshotView {
    SnapshotView {
        cpu_count: r.cores.len() as usize,
        total_mem: r.total_memory,
        mem_usage: percent_of(r.total_memory - r.available_memory, r.total_memory as int) as u32,
        total_swap: r.total_swap,
        swap_usage: percent_of(r.used_swap as int, r.total_swap as int) as u32,
        cores: r.cores.map_values(|v: u32| clamp_core(v)),
        load_average: r.load_average,
        networks: table_of(r.networks),
    }
}

/// A zero total gives a zero share in use, never a division by zero: for
/// memory when the host reports no memory, for swap when it reports no swap.
pub proof fn lemma_zero_total_gives_zero_usage(r: HostReadingView)
    ensures
        r.total_memory == 0 ==> snapshot_of(r).mem_usage == 0,
        r.total_swap == 0 ==> snapshot_of(r).swap_usage == 0,
{
}

/// Builds the snapshot of one sampling pass from what the host reported.
pub fn build_snapshot(reading: &HostReading) -> (r: AppSystemInfo)
    ensures
        r@ == snapshot_of(reading@),
        r@.wf(),
{
    let used_mem: u64 = if reading.available_memory >= reading.total_memory {
        0
    } else {
        reading.total_memory - reading.available_memory
    };
    let mem_usage = used_percent(used_mem, reading.total_memory);
    let swap_usage = used_percent(reading.used_swap, reading.total_swap);
    let mut cores: Vec<u32> = Vec::new();
    let mut i: usize = 0;
    while i < reading.cpu_usage.len()
        invariant
            0 <= i <= reading.cpu_usage@.len(),
            cores@ == reading.cpu_usage@.take(i as int).map_values(|v: u32| clamp_core(v)),
        decreases reading.cpu_usage@.len() - i,
    {
        let v = reading.cpu_usage[i];
        let c: u32 = if v > FULL_PERCENT {
            FULL_PERCENT
        } else {
            v
        };
        cores.push(c);
        assert(cores@ =~= reading.cpu_usage@.take(i as int + 1).map_values(
            |v: u32| clamp_core(v),
        ));
        i = i + 1;
    }
    assert(reading.cpu_usage@.take(i as int) =~= reading.cpu_usage@);
    let networks = network_table(&reading.networks);
    let r = AppSystemInfo {
        cpu_count: cores.len(),
        total_mem: reading.total_memory,
        mem_usage,
        total_swap: reading.total_swap,
        swap_usage,
        cpu_usage_per_cpu: cores,
        load_average: reading.load_average,
        networks,
    };
    r
}

/// One sampling pass: publishes the snapshot of `reading` into `store`. Where the
/// host could not be read this pass (`None`), nothing is published and the store
/// keeps its snapshot. Returns whether a snapshot was published.
pub fn update_system_usage(store: &mut MetricsStore, reading: Option<HostReading>) -> (r: bool)
    requires
        old(store)@.wf(),
    ensures
        final(store)@.wf(),
        r == reading is Some,
        reading is None ==> final(store)@ == old(store)@,
        reading matches Some(h) ==> final(store)@ == published(old(store)@, snapshot_of(h@)),
{
    match reading {
        None => false,
        Some(h) => {
            let s = build_snapshot(&h);
            store.publish(s);
            true
        },
    }
}

} // verus!
