use vstd::prelude::*;
use crate::render::Extent;

verus! {

/// The kind of a graphics adapter.
#[derive(Clone, Copy, Debug, PartialEq, Eq, Structural)]
pub enum PhysicalDeviceType {
    DiscreteGpu,
    IntegratedGpu,
    VirtualGpu,
    Cpu,
    Other,
}

/// What the selection needs to know of a queue family.
#[derive(Clone, Copy, Debug, PartialEq, Eq, Structural)]
pub struct QueueFamily {
    /// The family takes graphics work.
    pub graphics: bool,
    /// The family can present to the window's surface.
    pub surface_support: bool,
}

/// What the selection needs to know of an adapter.
#[derive(Debug)]
pub struct PhysicalDevice {
    /// The adapter offers the swapchain extension.
    pub khr_swapchain: bool,
    pub device_type: PhysicalDeviceType,
    pub queue_families: Vec<QueueFamily>,
}

/// How a surface can blend with what lies behind the window.
#[derive(Clone, Copy, Debug, PartialEq, Eq, Structural)]
pub enum CompositeAlpha {
    Opaque,
    PreMultiplied,
    PostMultiplied,
    Inherit,
}

/// What the swapchain setup needs to know of a surface.
#[derive(Debug)]
pub struct SurfaceCapabilities {
    pub min_image_count: u32,
    /// The supported modes, in the order in which the surface lists them.
    pub supported_composite_alpha: Vec<CompositeAlpha>,
}

/// The parameters of the initial swapchain.
#[derive(Clone, Copy, Debug, PartialEq, Eq, Structural)]
pub struct SwapchainCreateInfo {
    pub min_image_count: u32,
    /// The position of the image format in the surface's list of formats.
    pub image_format: usize,
    pub image_extent: Extent,
    pub composite_alpha: CompositeAlpha,
}

/// The preference among adapters: the lower, the better.
pub open spec fn rank(device_type: PhysicalDeviceType) -> int {
    match device_type {
        PhysicalDeviceType::DiscreteGpu => 0,
        PhysicalDeviceType::IntegratedGpu => 1,
        PhysicalDeviceType::VirtualGpu => 2,
        PhysicalDeviceType::Cpu => 3,
        PhysicalDeviceType::Other => 4,
    }
}

/// A family that draws and presents.
pub open spec fn suitable(family: QueueFamily) -> bool {
    family.graphics && family.surface_support
}

/// Tells whether `q` is the first suitable family among `families`.
pub open spec fn is_first_suitable(families: Seq<QueueFamily>, q: int) -> bool {
    &&& 0 <= q < families.len()
    &&& suitable(families[q])
    &&& forall|j: int| 0 <= j < q ==> !suitable(#[trigger] families[j])
}

/// An adapter that can be used: it has the swapchain extension and a suitable family.
pub open spec fn eligible(device: PhysicalDevice) -> bool {
    device.khr_swapchain && exists|q: int| 0 <= q < device.queue_families@.len() && suitable(#[trigger] device.queue_families@[q])
}

/// Tells whether adapter `d` with family `q` is the choice among `devices`: the
/// adapter is eligible, `q` is its first suitable family, no eligible adapter is of
/// a better kind, and those of the same kind come later in the list.
pub open spec fn is_selection(devices: Seq<PhysicalDevice>, d: int, q: int) -> bool {
    &&& 0 <= d < devices.len()
    &&& devices[d].khr_swapchain
    &&& is_first_suitable(devices[d].queue_families@, q)
    &&& forall|j: int| 0 <= j < devices.len() && eligible(#[trigger] devices[j]) ==> rank(devices[d].device_type) <= rank(devices[j].device_type)
    &&& forall|j: int| 0 <= j < d && eligible(#[trigger] devices[j]) ==> rank(devices[d].device_type) < rank(devices[j].device_type)
}

/// There is at most one choice among given adapters.
pub proof fn lemma_selection_unique(devices: Seq<PhysicalDevice>, d1: int, q1: int, d2: int, q2: int)
    requires
        is_selection(devices, d1, q1),
        is_selection(devices, d2, q2),
    ensures
        d1 == d2,
        q1 == q2,
{
    assert(eligible(devices[d1])) by {
        assert(suitable(devices[d1].queue_families@[q1]));
    }
    assert(eligible(devices[d2])) by {
        assert(suitable(devices[d2].queue_families@[q2]));
    }
    if d1 < d2 {
        assert(rank(devices[d2].device_type) < rank(devices[d1].device_type));
        assert(rank(devices[d1].device_type) <= rank(devices[d2].device_type));
    }
    if d2 < d1 {
        assert(rank(devices[d1].device_type) < rank(devices[d2].device_type));
        assert(rank(devices[d2].device_type) <= rank(devices[d1].device_type));
    }
    if q1 < q2 {
        assert(!suitable(devices[d1].queue_families@[q1]));
    }
    if q2 < q1 {
        assert(!suitable(devices[d1].queue_families@[q2]));
    }
}

fn device_rank(device_type: PhysicalDeviceType) -> (r: u8)
    ensures
        r == rank(device_type),
{
    match device_type {
        PhysicalDeviceType::DiscreteGpu => 0,
        PhysicalDeviceType::IntegratedGpu => 1,
        PhysicalDeviceType::VirtualGpu => 2,
        PhysicalDeviceType::Cpu => 3,
        PhysicalDeviceType::Other => 4,
    }
}

/// The first family that takes graphics work and presents to the surface.
pub fn find_queue_family(families: &Vec<QueueFamily>) -> (found: Option<u32>)
    requires
        families.len() <= u32::MAX,
    ensures
        match found {
            Some(q) => is_first_suitable(families@, q as int),
            None => forall|j: int| 0 <= j < families.len() ==> !suitable(#[trigger] families@[j]),
        },
{
    let mut i: usize = 0;
    while i < families.len()
        invariant
            i <= families.len(),
            families.len() <= u32::MAX,
            forall|j: int| 0 <= j < i ==> !suitable(#[trigger] families@[j]),
        decreases families.len() - i,
    {
        if families[i].graphics && families[i].surface_support {
            return Some(i as u32);
        }
        i = i + 1;
    }
    None
}

/// Picks the adapter to render with, and the queue family to use on it.
///
/// Only adapters with the swapchain extension and a family that both draws and
/// presents are considered. Among them a discrete GPU is preferred to an
/// integrated one, that to a virtual one, that to a software adapter, that to any
/// other; among equals the first in the list wins. `None` means that no adapter
/// can be used.
pub fn select_device(devices: &Vec<PhysicalDevice>) -> (selection: Option<(usize, u32)>)
    requires
        forall|j: int| 0 <= j < devices.len() ==> (#[trigger] devices@[j]).queue_families.len() <= u32::MAX,
    ensures
        match selection {
            Some((d, q)) => is_selection(devices@, d as int, q as int),
            None => forall|j: int| 0 <= j < devices.len() ==> !eligible(#[trigger] devices@[j]),
        },
{
    let mut best: Option<(usize, u32)> = None;
    let mut best_rank: u8 = 5;
    let mut i: usize = 0;
    while i < devices.len()
        invariant
            i <= devices.len(),
            forall|j: int| 0 <= j < devices.len() ==> (#[trigger] devices@[j]).queue_families.len() <= u32::MAX,
            match best {
                Some((d, q)) => {
                    &&& d < i
                    &&& devices@[d as int].khr_swapchain
                    &&& is_first_suitable(devices@[d as int].queue_families@, q as int)
                    &&& best_rank == rank(devices@[d as int].device_type)
                    &&& forall|j: int| 0 <= j < i && eligible(#[trigger] devices@[j]) ==> best_rank <= rank(devices@[j].device_type)
                    &&& forall|j: int| 0 <= j < d && eligible(#[trigger] devices@[j]) ==> best_rank < rank(devices@[j].device_type)
                },
                None => best_rank == 5 && forall|j: int| 0 <= j < i ==> !eligible(#[trigger] devices@[j]),
            },
        decreases devices.len() - i,
    {
        let device = &devices[i];
        if device.khr_swapchain {
            if let Some(q) = find_queue_family(&device.queue_families) {
                let r = device_rank(device.device_type);
                if r < best_rank {
                    best = Some((i, q));
                    best_rank = r;
                }
            }
        }
        i = i + 1;
    }
    best
}

/// The parameters of the first swapchain for a window of `dimensions` pixels: the
/// surface's minimum image count, its first format, and the first composite-alpha
/// mode that it supports. `None` when the surface offers no format or no mode.
pub fn initial_swapchain(capabilities: &SurfaceCapabilities, format_count: usize, dimensions: Extent) -> (info: Option<SwapchainCreateInfo>)
    ensures
        info == if format_count > 0 && capabilities.supported_composite_alpha@.len() > 0 {
            Some(
                SwapchainCreateInfo {
                    min_image_count: capabilities.min_image_count,
                    image_format: 0,
                    image_extent: dimensions,
                    composite_alpha: capabilities.supported_composite_alpha@[0],
                },
            )
        } else {
            None
        },
{
    if format_count == 0 || capabilities.supported_composite_alpha.len() == 0 {
        return None;
    }
    Some(
        SwapchainCreateInfo {
            min_image_count: capabilities.min_image_count,
            image_format: 0,
            image_extent: dimensions,
            composite_alpha: capabilities.supported_composite_alpha[0],
        },
    )
}

} // verus!
