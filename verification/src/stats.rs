//! Baseline statistics records.
//!
//! These are the records that the baseline provider (an external
//! collaborator polling on its own cadence) fills and the merge engine
//! overlays with sidecar readings.  Percentages and usage figures are held
//! as [`Milli`] readings; byte and frequency counts as plain integers.

use crate::milli::Milli;
use vstd::prelude::*;

verus! {

/// Static system information.
#[derive(Debug)]
pub struct SystemInfo {
    pub cpu_name: String,
    pub cpu_cores: usize,
    pub cpu_threads: usize,
    /// Bytes.
    pub ram_total: u64,
    pub gpu_name: Option<String>,
    /// Bytes.
    pub gpu_vram_total: Option<u64>,
    pub os_name: String,
    pub os_version: String,
    pub hostname: String,
    pub uptime_seconds: u64,
}

/// Process information for the top-processes list.
#[derive(Debug)]
pub struct ProcessInfo {
    pub pid: u32,
    pub name: String,
    /// Percent of one CPU, 0 to 100.
    pub cpu_usage: Milli,
    /// Bytes.
    pub memory: u64,
}

/// CPU statistics.
#[derive(Debug)]
pub struct CpuStats {
    pub name: String,
    /// Percent, 0 to 100.
    pub usage: Milli,
    /// MHz.
    pub frequency: u64,
    pub cores: usize,
    pub logical_cores: usize,
    pub per_core_usage: Vec<Milli>,
    /// Celsius; filled in from the sidecar by the merge engine.
    pub temperature: Option<Milli>,
}

/// Memory statistics.
#[derive(Debug)]
pub struct RamStats {
    pub total: u64,
    pub used: u64,
    pub available: u64,
    /// Percent, 0 to 100.
    pub usage_percent: Milli,
}

/// GPU statistics, present only when a GPU was detected.
#[derive(Debug)]
pub struct GpuStats {
    pub name: String,
    /// Percent, 0 to 100.
    pub usage: Milli,
    pub memory_total: u64,
    pub memory_used: u64,
    /// Celsius.
    pub temperature: Option<u32>,
    /// Percent, 0 to 100.
    pub fan_speed: Option<u32>,
}

/// Combined statistics payload.
#[derive(Debug)]
pub struct SystemStats {
    pub cpu: CpuStats,
    pub ram: RamStats,
    pub gpu: Option<GpuStats>,
    pub system_info: SystemInfo,
    pub processes: Vec<ProcessInfo>,
    /// Unix timestamp in milliseconds.
    pub timestamp: u64,
}

/// Mathematical image of [`SystemInfo`].
pub struct SystemInfoView {
    pub cpu_name: Seq<char>,
    pub cpu_cores: int,
    pub cpu_threads: int,
    pub ram_total: int,
    pub gpu_name: Option<Seq<char>>,
    pub gpu_vram_total: Option<int>,
    pub os_name: Seq<char>,
    pub os_version: Seq<char>,
    pub hostname: Seq<char>,
    pub uptime_seconds: int,
}

/// Mathematical image of [`ProcessInfo`].
pub struct ProcessInfoView {
    pub pid: int,
    pub name: Seq<char>,
    pub cpu_usage: int,
    pub memory: int,
}

/// Mathematical image of [`CpuStats`].
pub struct CpuStatsView {
    pub name: Seq<char>,
    pub usage: int,
    pub frequency: int,
    pub cores: int,
    pub logical_cores: int,
    pub per_core_usage: Seq<int>,
    pub temperature: Option<int>,
}

/// Mathematical image of [`RamStats`].
pub struct RamStatsView {
    pub total: int,
    pub used: int,
    pub available: int,
    pub usage_percent: int,
}

/// Mathematical image of [`GpuStats`].
pub struct GpuStatsView {
    pub name: Seq<char>,
    pub usage: int,
    pub memory_total: int,
    pub memory_used: int,
    pub temperature: Option<int>,
    pub fan_speed: Option<int>,
}

/// Mathematical image of [`SystemStats`].
pub struct SystemStatsView {
    pub cpu: CpuStatsView,
    pub ram: RamStatsView,
    pub gpu: Option<GpuStatsView>,
    pub system_info: SystemInfoView,
    pub processes: Seq<ProcessInfoView>,
    pub timestamp: int,
}

pub open spec fn view_opt_u64(o: Option<u64>) -> Option<int> {
    match o {
        Some(v) => Some(v as int),
        None => None,
    }
}

pub open spec fn view_opt_u32(o: Option<u32>) -> Option<int> {
    match o {
        Some(v) => Some(v as int),
        None => None,
    }
}

impl View for SystemInfo {
    type V = SystemInfoView;

    open spec fn view(&self) -> SystemInfoView {
        SystemInfoView {
            cpu_name: self.cpu_name@,
            cpu_cores: self.cpu_cores as int,
            cpu_threads: self.cpu_threads as int,
            ram_total: self.ram_total as int,
            gpu_name: match self.gpu_name {
                Some(s) => Some(s@),
                None => None,
            },
            gpu_vram_total: view_opt_u64(self.gpu_vram_total),
            os_name: self.os_name@,
            os_version: self.os_version@,
            hostname: self.hostname@,
            uptime_seconds: self.uptime_seconds as int,
        }
    }
}

impl View for ProcessInfo {
    type V = ProcessInfoView;

    open spec fn view(&self) -> ProcessInfoView {
        ProcessInfoView {
            pid: self.pid as int,
            name: self.name@,
            cpu_usage: self.cpu_usage@,
            memory: self.memory as int,
        }
    }
}

impl View for CpuStats {
    type V = CpuStatsView;

    open spec fn view(&self) -> CpuStatsView {
        CpuStatsView {
            name: self.name@,
            usage: self.usage@,
            frequency: self.frequency as int,
            cores: self.cores as int,
            logical_cores: self.logical_cores as int,
            per_core_usage: self.per_core_usage@.map(|i: int, m: Milli| m@),
            temperature: crate::data::view_opt_milli(self.temperature),
        }
    }
}

impl View for RamStats {
    type V = RamStatsView;

    open spec fn view(&self) -> RamStatsView {
        RamStatsView {
            total: self.total as int,
            used: self.used as int,
            available: self.available as int,
            usage_percent: self.usage_percent@,
        }
    }
}

impl View for GpuStats {
    type V = GpuStatsView;

    open spec fn view(&self) -> GpuStatsView {
        GpuStatsView {
            name: self.name@,
            usage: self.usage@,
            memory_total: self.memory_total as int,
            memory_used: self.memory_used as int,
            temperature: view_opt_u32(self.temperature),
            fan_speed: view_opt_u32(self.fan_speed),
        }
    }
}

impl View for SystemStats {
    type V = SystemStatsView;

    open spec fn view(&self) -> SystemStatsView {
        SystemStatsView {
            cpu: self.cpu@,
            ram: self.ram@,
            gpu: match self.gpu {
                Some(g) => Some(g@),
                None => None,
            },
            system_info: self.system_info@,
            processes: self.processes@.map(|i: int, p: ProcessInfo| p@),
            timestamp: self.timestamp as int,
        }
    }
}

impl Default for CpuStats {
    /// All-zero CPU statistics under a placeholder name.
    fn default() -> (r: Self)
        ensures
            r@.name == "Unknown CPU"@,
            r@.usage == 0,
            r@.frequency == 0,
            r@.cores == 0,
            r@.logical_cores == 0,
            r@.per_core_usage == Seq::<int>::empty(),
            r@.temperature is None,
    {
        let r = CpuStats {
            name: String::from_str("Unknown CPU"),
            usage: Milli(0),
            frequency: 0,
            cores: 0,
            logical_cores: 0,
            per_core_usage: Vec::new(),
            temperature: None,
        };
        proof {
            assert(r@.per_core_usage =~= Seq::<int>::empty());
        }
        r
    }
}

impl Default for RamStats {
    /// All-zero memory statistics.
    fn default() -> (r: Self)
        ensures
            r@.total == 0,
            r@.used == 0,
            r@.available == 0,
            r@.usage_percent == 0,
    {
        RamStats { total: 0, used: 0, available: 0, usage_percent: Milli(0) }
    }
}

impl Default for GpuStats {
    /// All-zero GPU statistics under a placeholder name.
    fn default() -> (r: Self)
        ensures
            r@.name == "Unknown GPU"@,
            r@.usage == 0,
            r@.memory_total == 0,
            r@.memory_used == 0,
            r@.temperature is None,
            r@.fan_speed is None,
    {
        GpuStats {
            name: String::from_str("Unknown GPU"),
            usage: Milli(0),
            memory_total: 0,
            memory_used: 0,
            temperature: None,
            fan_speed: None,
        }
    }
}

impl Default for SystemInfo {
    /// Placeholder system information.
    fn default() -> (r: Self)
        ensures
            r@.cpu_name == "Unknown CPU"@,
            r@.cpu_cores == 0,
            r@.cpu_threads == 0,
            r@.ram_total == 0,
            r@.gpu_name is None,
            r@.gpu_vram_total is None,
            r@.os_name == "Unknown"@,
            r@.os_version == Seq::<char>::empty(),
            r@.hostname == Seq::<char>::empty(),
            r@.uptime_seconds == 0,
    {
        SystemInfo {
            cpu_name: String::from_str("Unknown CPU"),
            cpu_cores: 0,
            cpu_threads: 0,
            ram_total: 0,
            gpu_name: None,
            gpu_vram_total: None,
            os_name: String::from_str("Unknown"),
            os_version: String::new(),
            hostname: String::new(),
            uptime_seconds: 0,
        }
    }
}

impl Default for SystemStats {
    /// Placeholder payload: default parts, no GPU, no processes, time zero.
    fn default() -> (r: Self)
        ensures
            r@.gpu is None,
            r@.processes == Seq::<ProcessInfoView>::empty(),
            r@.timestamp == 0,
            r@.cpu.temperature is None,
            r@.ram.total == 0,
    {
        let r = SystemStats {
            cpu: CpuStats::default(),
            ram: RamStats::default(),
            gpu: None,
            system_info: SystemInfo::default(),
            processes: Vec::new(),
            timestamp: 0,
        };
        proof {
            assert(r@.processes =~= Seq::<ProcessInfoView>::empty());
        }
        r
    }
}

} // verus!
