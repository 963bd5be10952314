//! The decoded sidecar snapshot.
//!
//! One accepted line of sidecar output becomes one [`SidecarData`] value,
//! which replaces the previous snapshot in the store wholesale.  Every field
//! that the wire format marks optional is an `Option` here; an absent field
//! decodes to `None`, never to a fabricated default.

use crate::milli::Milli;
use vstd::prelude::*;

verus! {

/// CPU block of a snapshot.
#[derive(Debug)]
pub struct SidecarCpuData {
    pub name: Option<String>,
    pub temperature: Option<Milli>,
    pub package_temperature: Option<Milli>,
    pub core_temperatures: Vec<Option<Milli>>,
    pub max_temperature: Option<Milli>,
    pub power: Option<Milli>,
    pub core_powers: Vec<Option<Milli>>,
}

/// One GPU block of a snapshot.
#[derive(Debug)]
pub struct SidecarGpuData {
    pub name: Option<String>,
    pub vendor: Option<String>,
    pub temperature: Option<Milli>,
    pub hot_spot_temperature: Option<Milli>,
    pub power: Option<Milli>,
    pub core_clock: Option<Milli>,
    pub memory_clock: Option<Milli>,
    pub fan_speed: Option<Milli>,
    pub load: Option<Milli>,
}

/// One decoded line of sidecar output.
#[derive(Debug)]
pub struct SidecarData {
    pub cpu: Option<SidecarCpuData>,
    pub gpu: Vec<SidecarGpuData>,
    pub timestamp: i64,
    pub error: Option<String>,
}

/// Mathematical image of a CPU block.
pub struct CpuDataView {
    pub name: Option<Seq<char>>,
    pub temperature: Option<int>,
    pub package_temperature: Option<int>,
    pub core_temperatures: Seq<Option<int>>,
    pub max_temperature: Option<int>,
    pub power: Option<int>,
    pub core_powers: Seq<Option<int>>,
}

/// Mathematical image of a GPU block.
pub struct GpuDataView {
    pub name: Option<Seq<char>>,
    pub vendor: Option<Seq<char>>,
    pub temperature: Option<int>,
    pub hot_spot_temperature: Option<int>,
    pub power: Option<int>,
    pub core_clock: Option<int>,
    pub memory_clock: Option<int>,
    pub fan_speed: Option<int>,
    pub load: Option<int>,
}

/// Mathematical image of a snapshot.
pub struct SidecarDataView {
    pub cpu: Option<CpuDataView>,
    pub gpu: Seq<GpuDataView>,
    pub timestamp: int,
    pub error: Option<Seq<char>>,
}

pub open spec fn view_opt_milli(o: Option<Milli>) -> Option<int> {
    match o {
        Some(m) => Some(m@),
        None => None,
    }
}

pub open spec fn view_opt_string(o: Option<String>) -> Option<Seq<char>> {
    match o {
        Some(s) => Some(s@),
        None => None,
    }
}

impl View for SidecarCpuData {
    type V = CpuDataView;

    open spec fn view(&self) -> CpuDataView {
        CpuDataView {
            name: view_opt_string(self.name),
            temperature: view_opt_milli(self.temperature),
            package_temperature: view_opt_milli(self.package_temperature),
            core_temperatures: self.core_temperatures@.map(|i: int, o: Option<Milli>| view_opt_milli(o)),
            max_temperature: view_opt_milli(self.max_temperature),
            power: view_opt_milli(self.power),
            core_powers: self.core_powers@.map(|i: int, o: Option<Milli>| view_opt_milli(o)),
        }
    }
}

impl View for SidecarGpuData {
    type V = GpuDataView;

    open spec fn view(&self) -> GpuDataView {
        GpuDataView {
            name: view_opt_string(self.name),
            vendor: view_opt_string(self.vendor),
            temperature: view_opt_milli(self.temperature),
            hot_spot_temperature: view_opt_milli(self.hot_spot_temperature),
            power: view_opt_milli(self.power),
            core_clock: view_opt_milli(self.core_clock),
            memory_clock: view_opt_milli(self.memory_clock),
            fan_speed: view_opt_milli(self.fan_speed),
            load: view_opt_milli(self.load),
        }
    }
}

impl View for SidecarData {
    type V = SidecarDataView;

    open spec fn view(&self) -> SidecarDataView {
        SidecarDataView {
            cpu: match self.cpu {
                Some(c) => Some(c@),
                None => None,
            },
            gpu: self.gpu@.map(|i: int, g: SidecarGpuData| g@),
            timestamp: self.timestamp as int,
            error: view_opt_string(self.error),
        }
    }
}

fn copy_opt_string(o: &Option<String>) -> (r: Option<String>)
    ensures
        view_opt_string(r) == view_opt_string(*o),
{
    match o {
        Some(s) => Some(s.clone()),
        None => None,
    }
}

pub(crate) fn copy_milli_opts(v: &Vec<Option<Milli>>) -> (r: Vec<Option<Milli>>)
    ensures
        r@ == v@,
{
    let mut out: Vec<Option<Milli>> = Vec::new();
    let mut i: usize = 0;
    while i < v.len()
        invariant
            i <= v.len(),
            out@ =~= v@.subrange(0, i as int),
        decreases v.len() - i,
    {
        out.push(v[i]);
        i = i + 1;
    }
    proof {
        assert(out@ =~= v@);
    }
    out
}

impl SidecarCpuData {
    /// A fresh value with the same image; used where a caller needs an owned
    /// copy of a snapshot held behind a shared reference.
    pub fn duplicate(&self) -> (r: SidecarCpuData)
        ensures
            r@ == self@,
    {
        let r = SidecarCpuData {
            name: copy_opt_string(&self.name),
            temperature: self.temperature,
            package_temperature: self.package_temperature,
            core_temperatures: copy_milli_opts(&self.core_temperatures),
            max_temperature: self.max_temperature,
            power: self.power,
            core_powers: copy_milli_opts(&self.core_powers),
        };
        r
    }
}

impl SidecarGpuData {
    /// A fresh value with the same image.
    pub fn duplicate(&self) -> (r: SidecarGpuData)
        ensures
            r@ == self@,
    {
        SidecarGpuData {
            name: copy_opt_string(&self.name),
            vendor: copy_opt_string(&self.vendor),
            temperature: self.temperature,
            hot_spot_temperature: self.hot_spot_temperature,
            power: self.power,
            core_clock: self.core_clock,
            memory_clock: self.memory_clock,
            fan_speed: self.fan_speed,
            load: self.load,
        }
    }
}

impl SidecarData {
    /// A fresh value with the same image.
    pub fn duplicate(&self) -> (r: SidecarData)
        ensures
            r@ == self@,
    {
        let cpu = match &self.cpu {
            Some(c) => Some(c.duplicate()),
            None => None,
        };
        let mut gpu: Vec<SidecarGpuData> = Vec::new();
        let mut i: usize = 0;
        while i < self.gpu.len()
            invariant
                i <= self.gpu.len(),
                gpu@.len() == i,
                forall|k: int| 0 <= k < i ==> #[trigger] (gpu@[k]@) == self.gpu@[k]@,
            decreases self.gpu.len() - i,
        {
            gpu.push(self.gpu[i].duplicate());
            i = i + 1;
        }
        proof {
            assert(gpu@.map(|k: int, g: SidecarGpuData| g@)
                =~= self.gpu@.map(|k: int, g: SidecarGpuData| g@));
        }
        let r = SidecarData {
            cpu,
            gpu,
            timestamp: self.timestamp,
            error: copy_opt_string(&self.error),
        };
        r
    }
}

} // verus!
