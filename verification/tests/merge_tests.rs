use sidecar_supervisor::data::{SidecarCpuData, SidecarData, SidecarGpuData};
use sidecar_supervisor::merge::merge_stats;
use sidecar_supervisor::milli::Milli;
use sidecar_supervisor::stats::{CpuStats, GpuStats, RamStats, SystemInfo, SystemStats};

fn baseline(gpu_fan: Option<u32>, gpu_temp: Option<u32>, cpu_temp: Option<Milli>) -> SystemStats {
    SystemStats {
        cpu: CpuStats { temperature: cpu_temp, ..CpuStats::default() },
        ram: RamStats::default(),
        gpu: Some(GpuStats { temperature: gpu_temp, fan_speed: gpu_fan, ..GpuStats::default() }),
        system_info: SystemInfo::default(),
        processes: Vec::new(),
        timestamp: 7,
    }
}

fn snapshot(cpu_temp: Option<Milli>, gpu_temp: Option<Milli>, gpu_fan: Option<Milli>) -> SidecarData {
    SidecarData {
        cpu: Some(SidecarCpuData {
            name: None,
            temperature: cpu_temp,
            package_temperature: None,
            core_temperatures: Vec::new(),
            max_temperature: None,
            power: None,
            core_powers: Vec::new(),
        }),
        gpu: vec![SidecarGpuData {
            name: None,
            vendor: None,
            temperature: gpu_temp,
            hot_spot_temperature: None,
            power: None,
            core_clock: None,
            memory_clock: None,
            fan_speed: gpu_fan,
            load: None,
        }],
        timestamp: 1,
        error: None,
    }
}

#[test]
fn test_fan_speed_baseline_wins() {
    let b = baseline(Some(40), None, None);
    let s = snapshot(None, None, Some(Milli::from_int(70)));
    let merged = merge_stats(b, Some(&s));
    assert_eq!(merged.gpu.unwrap().fan_speed, Some(40));
}

#[test]
fn test_fan_speed_fills_absent_baseline() {
    let b = baseline(None, None, None);
    let s = snapshot(None, None, Some(Milli::from_int(70)));
    let merged = merge_stats(b, Some(&s));
    assert_eq!(merged.gpu.unwrap().fan_speed, Some(70));
}

#[test]
fn test_cpu_temperature_fills_null_baseline() {
    let b = baseline(None, None, None);
    let s = snapshot(Some(Milli::from_int(55)), None, None);
    let merged = merge_stats(b, Some(&s));
    assert_eq!(merged.cpu.temperature, Some(Milli::from_int(55)));
}

#[test]
fn test_cpu_temperature_overwrites_baseline() {
    let b = baseline(None, None, Some(Milli::from_int(30)));
    let s = snapshot(Some(Milli::from_int(55)), None, None);
    let merged = merge_stats(b, Some(&s));
    assert_eq!(merged.cpu.temperature, Some(Milli::from_int(55)));
}

#[test]
fn test_gpu_temperature_overwrites_and_truncates() {
    let b = baseline(None, Some(50), None);
    let s = snapshot(None, Some(Milli(61_500)), None);
    let merged = merge_stats(b, Some(&s));
    // 61.5 degrees narrows to 61 whole degrees in the baseline field
    assert_eq!(merged.gpu.unwrap().temperature, Some(61));
}

#[test]
fn test_absent_snapshot_passes_baseline_through() {
    let b = baseline(Some(40), Some(50), Some(Milli::from_int(30)));
    let merged = merge_stats(b, None);
    assert_eq!(merged.cpu.temperature, Some(Milli::from_int(30)));
    let g = merged.gpu.unwrap();
    assert_eq!(g.temperature, Some(50));
    assert_eq!(g.fan_speed, Some(40));
    assert_eq!(merged.timestamp, 7);
    assert_eq!(merged.ram.total, 0);
    assert!(merged.processes.is_empty());
}

#[test]
fn test_empty_snapshot_gpu_list_leaves_gpu_alone() {
    let b = baseline(Some(40), Some(50), None);
    let mut s = snapshot(Some(Milli::from_int(55)), None, None);
    s.gpu.clear();
    let merged = merge_stats(b, Some(&s));
    let g = merged.gpu.unwrap();
    assert_eq!(g.temperature, Some(50));
    assert_eq!(g.fan_speed, Some(40));
}

#[test]
fn test_merge_without_baseline_gpu() {
    let mut b = baseline(None, None, None);
    b.gpu = None;
    let s = snapshot(None, Some(Milli::from_int(60)), Some(Milli::from_int(70)));
    let merged = merge_stats(b, Some(&s));
    assert!(merged.gpu.is_none());
}

#[test]
fn test_milli_truncation_bounds() {
    assert_eq!(Milli(-5_000).to_u32_truncated(), 0);
    assert_eq!(Milli(0).to_u32_truncated(), 0);
    assert_eq!(Milli(999).to_u32_truncated(), 0);
    assert_eq!(Milli(61_999).to_u32_truncated(), 61);
    assert_eq!(Milli(i64::MAX).to_u32_truncated(), u32::MAX);
    assert_eq!(Milli::from_int(65).thousandths(), 65_000);
    assert_eq!(Milli::from_thousandths(65_123), Milli(65_123));
}
