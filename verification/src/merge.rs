//! The merge engine.
//!
//! Overlays the latest sidecar snapshot onto a baseline statistics record.
//! The sidecar is authoritative for temperatures: a CPU or GPU temperature
//! it provides overwrites the baseline's.  For the GPU fan speed the
//! precedence is deliberately the other way around: a baseline value is
//! kept, and the snapshot only fills the field when the baseline has none.
//! Without a snapshot the baseline passes through unchanged.

use crate::data::{SidecarData, SidecarDataView};
use crate::milli::spec_milli_to_u32;
use crate::stats::{CpuStats, CpuStatsView, GpuStats, GpuStatsView, SystemStats, SystemStatsView};
use vstd::prelude::*;

verus! {

/// The CPU block after the merge: the snapshot's CPU temperature, if it
/// carries one, overwrites the baseline's.
pub open spec fn spec_merge_cpu(b: CpuStatsView, s: SidecarDataView) -> CpuStatsView {
    match s.cpu {
        Some(c) => match c.temperature {
            Some(t) => CpuStatsView { temperature: Some(t), ..b },
            None => b,
        },
        None => b,
    }
}

/// The GPU block after the merge, against the snapshot's first GPU entry:
/// a snapshot temperature overwrites; a snapshot fan speed only fills an
/// absent baseline fan speed.
pub open spec fn spec_merge_gpu(b: GpuStatsView, s: SidecarDataView) -> GpuStatsView {
    if s.gpu.len() > 0 {
        let sg = s.gpu[0];
        GpuStatsView {
            temperature: match sg.temperature {
                Some(t) => Some(spec_milli_to_u32(t) as int),
                None => b.temperature,
            },
            fan_speed: match b.fan_speed {
                Some(f) => Some(f),
                None => match sg.fan_speed {
                    Some(f) => Some(spec_milli_to_u32(f) as int),
                    None => None,
                },
            },
            ..b
        }
    } else {
        b
    }
}

/// The merged record: with no snapshot the baseline passes through
/// unchanged; with one, only the CPU temperature, GPU temperature and GPU
/// fan speed fields can differ, as [`spec_merge_cpu`] and
/// [`spec_merge_gpu`] state.
pub open spec fn spec_merge(b: SystemStatsView, s: Option<SidecarDataView>) -> SystemStatsView {
    match s {
        None => b,
        Some(sd) => SystemStatsView {
            cpu: spec_merge_cpu(b.cpu, sd),
            gpu: match b.gpu {
                Some(g) => Some(spec_merge_gpu(g, sd)),
                None => None,
            },
            ..b
        },
    }
}

/// Merges a baseline record with the latest sidecar snapshot, if any.
pub fn merge_stats(baseline: SystemStats, snap: Option<&SidecarData>) -> (r: SystemStats)
    ensures
        r@ == spec_merge(
            baseline@,
            match snap {
                Some(d) => Some(d@),
                None => None,
            },
        ),
{
    match snap {
        None => baseline,
        Some(sd) => {
            let SystemStats { cpu, ram, gpu, system_info, processes, timestamp } = baseline;
            let cpu2 = match &sd.cpu {
                Some(c) => match c.temperature {
                    Some(t) => CpuStats { temperature: Some(t), ..cpu },
                    None => cpu,
                },
                None => cpu,
            };
            let gpu2 = match gpu {
                Some(g) => {
                    if sd.gpu.len() > 0 {
                        let sg = &sd.gpu[0];
                        let t2 = match sg.temperature {
                            Some(t) => Some(t.to_u32_truncated()),
                            None => g.temperature,
                        };
                        let f2 = match g.fan_speed {
                            Some(f) => Some(f),
                            None => match sg.fan_speed {
                                Some(f) => Some(f.to_u32_truncated()),
                                None => None,
                            },
                        };
                        Some(GpuStats { temperature: t2, fan_speed: f2, ..g })
                    } else {
                        Some(g)
                    }
                },
                None => None,
            };
            SystemStats { cpu: cpu2, ram, gpu: gpu2, system_info, processes, timestamp }
        },
    }
}

/// Without a snapshot, the merged record is identical to the baseline.
pub proof fn lemma_merge_without_snapshot(b: SystemStatsView)
    ensures
        spec_merge(b, None) == b,
{
}

/// A baseline GPU fan speed always survives the merge: the baseline wins
/// for this one field whenever it holds a value.
pub proof fn lemma_merge_fan_baseline_wins(b: SystemStatsView, s: SidecarDataView)
    requires
        b.gpu is Some,
        b.gpu->0.fan_speed is Some,
    ensures
        spec_merge(b, Some(s)).gpu->0.fan_speed == b.gpu->0.fan_speed,
{
}

/// An absent baseline GPU fan speed is filled from the snapshot's first
/// GPU entry whenever that entry carries one.
pub proof fn lemma_merge_fan_fills_absent(b: SystemStatsView, s: SidecarDataView)
    requires
        b.gpu is Some,
        b.gpu->0.fan_speed is None,
        s.gpu.len() > 0,
        s.gpu[0].fan_speed is Some,
    ensures
        spec_merge(b, Some(s)).gpu->0.fan_speed
            == Some(spec_milli_to_u32(s.gpu[0].fan_speed->0) as int),
{
}

/// A CPU temperature carried by the snapshot always overwrites the
/// baseline's, whatever the baseline held.
pub proof fn lemma_merge_cpu_temperature_overwrites(b: SystemStatsView, s: SidecarDataView)
    requires
        s.cpu is Some,
        s.cpu->0.temperature is Some,
    ensures
        spec_merge(b, Some(s)).cpu.temperature == s.cpu->0.temperature,
{
}

} // verus!
