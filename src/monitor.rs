use crate::snapshot::{AppSystemInfo, SnapshotView};
use crate::store::{MetricsStore, SnapshotCopy};
use std::sync::Arc;
use sysinfo::System;
use tokio::sync::Mutex;
use vstd::prelude::*;

verus! {

/// sysinfo's handle on the host's metrics, carried through unread.
#[verifier::external_type_specification]
#[verifier::external_body]
pub struct ExSystem(sysinfo::System);

/// tokio's asynchronous mutex, carried through unread.
#[verifier::external_type_specification]
#[verifier::external_body]
#[verifier::reject_recursive_types(T)]
pub struct ExMutex<T: ?Sized>(tokio::sync::Mutex<T>);

/// Takes the latest copy read from the store into the presenter's own snapshot.
/// Where no copy could be had this time (`None`), the presenter keeps the copy
/// it had.
pub fn fixed_update(app_sys_fixed: &mut AppSystemInfo, latest: Option<SnapshotCopy>)
    ensures
        latest is None ==> final(app_sys_fixed)@ == old(app_sys_fixed)@,
        latest matches Some(c) ==> final(app_sys_fixed)@ == c.info@,
{
    match latest {
        Some(c) => {
            *app_sys_fixed = c.info;
        },
        None => {},
    }
}

/// The presenter's state: the shared handles, its last-known snapshot, and the
/// host details probed once at start.
pub struct CpuMonitorApp {
    pub hostname: String,
    pub system: Arc<Mutex<System>>,
    pub app_sys_info: Arc<Mutex<MetricsStore>>,
    pub app_sys_info_fixed: AppSystemInfo,
    pub cpu_count: usize,
    pub os_version: String,
    pub kernel_version: String,
}

/// `name` where the host gave one, else `fallback`.
pub open spec fn or_else(name: Option<String>, fallback: Seq<char>) -> Seq<char> {
    match name {
        Some(s) => s@,
        None => fallback,
    }
}

/// The text shown for an unknown operating system or kernel version.
pub open spec fn unknown_version() -> Seq<char> {
    seq!['U', 'n', 'k', 'n', 'o', 'w', 'n']
}

/// The text shown for an unknown host name.
pub open spec fn unknown_host() -> Seq<char> {
    seq!['<', 'U', 'n', 'k', 'n', 'o', 'w', 'n', '>']
}

impl CpuMonitorApp {
    /// A presenter over the given handles, with empty host details and the zero
    /// snapshot.
    pub fn new(system: Arc<Mutex<System>>, app_sys_info: Arc<Mutex<MetricsStore>>) -> (r: Self)
        ensures
            r.system == system,
            r.app_sys_info == app_sys_info,
            r.hostname@ == Seq::<char>::empty(),
            r.os_version@ == Seq::<char>::empty(),
            r.kernel_version@ == Seq::<char>::empty(),
            r.cpu_count == 0,
            r.app_sys_info_fixed@ == SnapshotView::zero(),
    {
        CpuMonitorApp {
            hostname: String::new(),
            system,
            app_sys_info,
            app_sys_info_fixed: AppSystemInfo::zeroed(),
            cpu_count: 0,
            os_version: String::new(),
            kernel_version: String::new(),
        }
    }

    /// Records what the host reported at start: its name and versions, with a
    /// placeholder for each one it did not give, its core count, and its total
    /// memory. The last-known snapshot gets one zero entry per core.
    pub fn apply_host_details(
        &mut self,
        host_name: Option<String>,
        os_version: Option<String>,
        kernel_version: Option<String>,
        cpu_count: usize,
        total_mem: u64,
    )
        ensures
            final(self).hostname@ == or_else(host_name, unknown_host()),
            final(self).os_version@ == or_else(os_version, unknown_version()),
            final(self).kernel_version@ == or_else(kernel_version, unknown_version()),
            final(self).cpu_count == cpu_count,
            final(self).app_sys_info_fixed@ == (SnapshotView {
                cpu_count,
                total_mem,
                cores: Seq::new(cpu_count as nat, |_i: int| 0u32),
                ..old(self).app_sys_info_fixed@
            }),
            final(self).system == old(self).system,
            final(self).app_sys_info == old(self).app_sys_info,
    {
        self.hostname = match host_name {
            Some(s) => s,
            None => {
                proof {
                    reveal_strlit("<Unknown>");
                }
                "<Unknown>".to_owned()
            },
        };
        self.os_version = match os_version {
            Some(s) => s,
            None => {
                proof {
                    reveal_strlit("Unknown");
                }
                "Unknown".to_owned()
            },
        };
        self.kernel_version = match kernel_version {
            Some(s) => s,
            None => {
                proof {
                    reveal_strlit("Unknown");
                }
                "Unknown".to_owned()
            },
        };
        self.cpu_count = cpu_count;
        self.app_sys_info_fixed.cpu_count = cpu_count;
        self.app_sys_info_fixed.total_mem = total_mem;
        let mut cores: Vec<u32> = Vec::new();
        let mut i: usize = 0;
        while i < cpu_count
            invariant
                0 <= i <= cpu_count,
                cores@ == Seq::new(i as nat, |_i: int| 0u32),
            decreases cpu_count - i,
        {
            cores.push(0);
            assert(cores@ =~= Seq::new(i as nat + 1, |_i: int| 0u32));
            i = i + 1;
        }
        self.app_sys_info_fixed.cpu_usage_per_cpu = cores;
    }
}

} // verus!
