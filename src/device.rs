use vstd::prelude::*;

verus! {

/// The kind of a physical device, as the driver reports it.
#[derive(Clone, Copy, Debug, PartialEq, Eq, Structural)]
pub enum DeviceKind {
    DiscreteGpu,
    IntegratedGpu,
    VirtualGpu,
    Cpu,
    Other,
}

/// Preference rank of a device kind: lower is preferred.
pub open spec fn kind_rank(k: DeviceKind) -> nat {
    match k {
        DeviceKind::DiscreteGpu => 0,
        DeviceKind::IntegratedGpu => 1,
        DeviceKind::VirtualGpu => 2,
        DeviceKind::Cpu => 3,
        DeviceKind::Other => 4,
    }
}

/// Executable form of `kind_rank`.
pub fn device_kind_rank(k: DeviceKind) -> (r: u8)
    ensures
        r as nat == kind_rank(k),
{
    match k {
        DeviceKind::DiscreteGpu => 0,
        DeviceKind::IntegratedGpu => 1,
        DeviceKind::VirtualGpu => 2,
        DeviceKind::Cpu => 3,
        DeviceKind::Other => 4,
    }
}

/// What the logic needs to know of one queue family of a device.
#[derive(Clone, Copy, Debug, PartialEq, Eq, Structural)]
pub struct QueueFamilyInfo {
    /// The family supports graphics work.
    pub graphics: bool,
    /// The family can present to the window's surface.
    pub presents_to_surface: bool,
}

/// What the logic needs to know of one physical device.
#[derive(Clone, Debug)]
pub struct DeviceCandidate {
    /// The device supports every required device extension.
    pub supports_extensions: bool,
    pub kind: DeviceKind,
    /// Queue families in the order the driver reports them.
    pub queue_families: Vec<QueueFamilyInfo>,
}

pub open spec fn family_suitable(f: QueueFamilyInfo) -> bool {
    f.graphics && f.presents_to_surface
}

pub open spec fn has_suitable_family(fams: Seq<QueueFamilyInfo>) -> bool {
    exists|j: int| 0 <= j < fams.len() && family_suitable(#[trigger] fams[j])
}

/// `q` is the position of the first suitable family of `fams`.
pub open spec fn is_first_suitable(fams: Seq<QueueFamilyInfo>, q: int) -> bool {
    &&& 0 <= q < fams.len()
    &&& family_suitable(fams[q])
    &&& forall|j: int| 0 <= j < q ==> !family_suitable(#[trigger] fams[j])
}

/// A device may be used: it has the extensions and a suitable queue family.
pub open spec fn eligible(c: DeviceCandidate) -> bool {
    c.supports_extensions && has_suitable_family(c.queue_families@)
}

pub open spec fn any_eligible(cs: Seq<DeviceCandidate>) -> bool {
    exists|e: int| 0 <= e < cs.len() && eligible(#[trigger] cs[e])
}

/// `(d, q)` is the selection for `cs`: among eligible devices, `d` is the first
/// one of the most preferred kind, and `q` is its first suitable queue family.
pub open spec fn is_selection(cs: Seq<DeviceCandidate>, d: int, q: int) -> bool {
    &&& 0 <= d < cs.len()
    &&& eligible(cs[d])
    &&& is_first_suitable(cs[d].queue_families@, q)
    &&& forall|e: int|
        0 <= e < cs.len() && eligible(#[trigger] cs[e]) ==> kind_rank(cs[d].kind) <= kind_rank(
            cs[e].kind,
        )
    &&& forall|e: int|
        0 <= e < d && eligible(#[trigger] cs[e]) ==> kind_rank(cs[d].kind) < kind_rank(cs[e].kind)
}

/// Position of the first queue family that supports graphics and can present.
pub fn first_suitable_family(fams: &Vec<QueueFamilyInfo>) -> (r: Option<usize>)
    ensures
        match r {
            Some(q) => is_first_suitable(fams@, q as int),
            None => !has_suitable_family(fams@),
        },
{
    let mut i: usize = 0;
    while i < fams.len()
        invariant
            i <= fams.len(),
            forall|j: int| 0 <= j < i ==> !family_suitable(#[trigger] fams@[j]),
        decreases fams.len() - i,
    {
        if fams[i].graphics && fams[i].presents_to_surface {
            return Some(i);
        }
        i = i + 1;
    }
    None
}

/// Picks the device to run on and the queue family to submit to.
///
/// Devices without the required extensions or without a family that supports
/// both graphics and presentation are passed over. Among the rest the most
/// preferred kind wins (discrete, integrated, virtual, CPU, other), the first
/// one on a tie. Returns the device's position and its first suitable family,
/// or `None` when no device can be used.
pub fn select_physical_device(candidates: &Vec<DeviceCandidate>) -> (r: Option<(usize, u32)>)
    requires
        forall|i: int|
            0 <= i < candidates@.len() ==> (#[trigger] candidates@[i]).queue_families@.len()
                <= u32::MAX,
    ensures
        r.is_none() <==> !any_eligible(candidates@),
        match r {
            Some((d, q)) => is_selection(candidates@, d as int, q as int),
            None => true,
        },
{
    let mut best: Option<(usize, u32, u8)> = None;
    let mut i: usize = 0;
    while i < candidates.len()
        invariant
            i <= candidates@.len(),
            forall|k: int|
                0 <= k < candidates@.len() ==> (#[trigger] candidates@[k]).queue_families@.len()
                    <= u32::MAX,
            match best {
                None => forall|e: int| 0 <= e < i ==> !eligible(#[trigger] candidates@[e]),
                Some((d, q, rk)) => {
                    &&& d < i
                    &&& rk as nat == kind_rank(candidates@[d as int].kind)
                    &&& eligible(candidates@[d as int])
                    &&& is_first_suitable(candidates@[d as int].queue_families@, q as int)
                    &&& forall|e: int|
                        0 <= e < i && eligible(#[trigger] candidates@[e]) ==> rk as nat
                            <= kind_rank(candidates@[e].kind)
                    &&& forall|e: int|
                        0 <= e < d && eligible(#[trigger] candidates@[e]) ==> (rk as nat)
                            < kind_rank(candidates@[e].kind)
                },
            },
        decreases candidates.len() - i,
    {
        let c = &candidates[i];
        if c.supports_extensions {
            match first_suitable_family(&c.queue_families) {
                Some(q) => {
                    let rk = device_kind_rank(c.kind);
                    let better = match best {
                        None => true,
                        Some((_, _, brk)) => rk < brk,
                    };
                    if better {
                        best = Some((i, q as u32, rk));
                    }
                },
                None => {},
            }
        }
        i = i + 1;
    }
    match best {
        None => None,
        Some((d, q, _)) => Some((d, q)),
    }
}

} // verus!
