use vstd::prelude::*;

verus! {

/// The kind of a physical device, in the order in which devices are preferred.
#[derive(Clone, Copy, Debug, PartialEq, Eq, Structural)]
pub enum DeviceKind {
    DiscreteGpu,
    IntegratedGpu,
    VirtualGpu,
    Cpu,
    Other,
}

/// Lower is preferred.
pub open spec fn kind_rank(k: DeviceKind) -> nat {
    match k {
        DeviceKind::DiscreteGpu => 0,
        DeviceKind::IntegratedGpu => 1,
        DeviceKind::VirtualGpu => 2,
        DeviceKind::Cpu => 3,
        DeviceKind::Other => 4,
    }
}

/// What device selection reads of one physical device.
pub struct DeviceInfo {
    /// The device supports every required device extension.
    pub supports_extensions: bool,
    /// For each queue family of the device, in order: whether it supports graphics.
    pub graphics_families: Vec<bool>,
    pub kind: DeviceKind,
}

/// `q` is the first queue family of `d` that supports graphics.
pub open spec fn first_graphics_family(d: DeviceInfo, q: int) -> bool {
    &&& 0 <= q < d.graphics_families@.len()
    &&& d.graphics_families@[q]
    &&& forall|k: int| 0 <= k < q ==> !d.graphics_families@[k]
}

/// A device can be used: it has the extensions and a graphics queue family.
pub open spec fn eligible(d: DeviceInfo) -> bool {
    d.supports_extensions && exists|q: int|
        0 <= q < d.graphics_families@.len() && #[trigger] d.graphics_families@[q]
}

pub fn rank(k: DeviceKind) -> (r: u8)
    ensures
        r == kind_rank(k),
{
    match k {
        DeviceKind::DiscreteGpu => 0,
        DeviceKind::IntegratedGpu => 1,
        DeviceKind::VirtualGpu => 2,
        DeviceKind::Cpu => 3,
        DeviceKind::Other => 4,
    }
}

/// The first queue family of `d` that supports graphics, if any.
fn graphics_family(d: &DeviceInfo) -> (r: Option<usize>)
    ensures
        r is None <==> forall|q: int|
            0 <= q < d.graphics_families@.len() ==> !d.graphics_families@[q],
        r matches Some(q) ==> first_graphics_family(*d, q as int),
{
    let mut k: usize = 0;
    while k < d.graphics_families.len()
        invariant
            k <= d.graphics_families@.len(),
            forall|j: int| 0 <= j < k ==> !d.graphics_families@[j],
        decreases d.graphics_families@.len() - k,
    {
        if d.graphics_families[k] {
            return Some(k);
        }
        k = k + 1;
    }
    None
}

/// Picks the device to render with: among the eligible devices, the first
/// one of the most preferred kind, together with its first graphics queue
/// family. `None` when no device is eligible.
pub fn select_device(devices: &Vec<DeviceInfo>) -> (r: Option<(usize, usize)>)
    ensures
        r is None <==> forall|i: int| 0 <= i < devices@.len() ==> !eligible(#[trigger] devices@[i]),
        r matches Some((i, q)) ==> {
            &&& i < devices@.len()
            &&& eligible(devices@[i as int])
            &&& first_graphics_family(devices@[i as int], q as int)
            &&& forall|j: int|
                0 <= j < devices@.len() && eligible(#[trigger] devices@[j]) ==> kind_rank(
                    devices@[i as int].kind,
                ) <= kind_rank(devices@[j].kind)
            &&& forall|j: int|
                0 <= j < i && eligible(#[trigger] devices@[j]) ==> kind_rank(devices@[i as int].kind)
                    < kind_rank(devices@[j].kind)
        },
{
    let mut best: Option<(usize, usize)> = None;
    let mut n: usize = 0;
    while n < devices.len()
        invariant
            n <= devices@.len(),
            best is None <==> forall|i: int| 0 <= i < n ==> !eligible(#[trigger] devices@[i]),
            best matches Some((i, q)) ==> {
                &&& i < n
                &&& eligible(devices@[i as int])
                &&& first_graphics_family(devices@[i as int], q as int)
                &&& forall|j: int|
                    0 <= j < n && eligible(#[trigger] devices@[j]) ==> kind_rank(
                        devices@[i as int].kind,
                    ) <= kind_rank(devices@[j].kind)
                &&& forall|j: int|
                    0 <= j < i && eligible(#[trigger] devices@[j]) ==> kind_rank(
                        devices@[i as int].kind,
                    ) < kind_rank(devices@[j].kind)
            },
        decreases devices@.len() - n,
    {
        let d = &devices[n];
        if d.supports_extensions {
            match graphics_family(d) {
                Some(q) => {
                    let better = match best {
                        None => true,
                        Some((b, _)) => rank(d.kind) < rank(devices[b].kind),
                    };
                    if better {
                        best = Some((n, q));
                    }
                },
                None => {},
            }
        }
        n = n + 1;
    }
    best
}

} // verus!
