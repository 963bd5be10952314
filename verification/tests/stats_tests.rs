use sidecar_supervisor::milli::Milli;
use sidecar_supervisor::stats::{CpuStats, GpuStats, RamStats, SystemInfo, SystemStats};

#[test]
fn test_cpu_stats_default() {
    let c = CpuStats::default();
    assert_eq!(c.name, "Unknown CPU");
    assert_eq!(c.usage, Milli(0));
    assert_eq!(c.frequency, 0);
    assert_eq!(c.cores, 0);
    assert_eq!(c.logical_cores, 0);
    assert!(c.per_core_usage.is_empty());
    assert!(c.temperature.is_none());
}

#[test]
fn test_ram_stats_default() {
    let r = RamStats::default();
    assert_eq!(r.total, 0);
    assert_eq!(r.used, 0);
    assert_eq!(r.available, 0);
    assert_eq!(r.usage_percent, Milli(0));
}

#[test]
fn test_gpu_stats_default() {
    let g = GpuStats::default();
    assert_eq!(g.name, "Unknown GPU");
    assert_eq!(g.usage, Milli(0));
    assert_eq!(g.memory_total, 0);
    assert_eq!(g.memory_used, 0);
    assert!(g.temperature.is_none());
    assert!(g.fan_speed.is_none());
}

#[test]
fn test_system_info_default() {
    let s = SystemInfo::default();
    assert_eq!(s.cpu_name, "Unknown CPU");
    assert_eq!(s.cpu_cores, 0);
    assert_eq!(s.cpu_threads, 0);
    assert_eq!(s.ram_total, 0);
    assert!(s.gpu_name.is_none());
    assert!(s.gpu_vram_total.is_none());
    assert_eq!(s.os_name, "Unknown");
    assert_eq!(s.os_version, "");
    assert_eq!(s.hostname, "");
    assert_eq!(s.uptime_seconds, 0);
}

#[test]
fn test_system_stats_default() {
    let s = SystemStats::default();
    assert!(s.gpu.is_none());
    assert!(s.processes.is_empty());
    assert_eq!(s.timestamp, 0);
    assert_eq!(s.cpu.name, "Unknown CPU");
    assert_eq!(s.ram.total, 0);
    assert_eq!(s.system_info.os_name, "Unknown");
}

#[test]
fn test_system_info_fields_roundtrip() {
    let s = SystemInfo {
        cpu_name: String::from("Test CPU"),
        cpu_cores: 8,
        cpu_threads: 16,
        ram_total: 32_000_000_000,
        gpu_name: Some(String::from("Test GPU")),
        gpu_vram_total: Some(8_000_000_000),
        os_name: String::from("Linux"),
        os_version: String::from("6.1"),
        hostname: String::from("host"),
        uptime_seconds: 12345,
    };
    assert_eq!(s.cpu_cores, 8);
    assert_eq!(s.gpu_name.as_deref(), Some("Test GPU"));
    assert_eq!(s.uptime_seconds, 12345);
}
