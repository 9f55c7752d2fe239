use pageview::device::find_queue_family;
use pageview::device::initial_swapchain;
use pageview::device::select_device;
use pageview::device::CompositeAlpha;
use pageview::device::PhysicalDevice;
use pageview::device::PhysicalDeviceType;
use pageview::device::QueueFamily;
use pageview::device::SurfaceCapabilities;
use pageview::device::SwapchainCreateInfo;
use pageview::render::Extent;

fn family(graphics: bool, surface_support: bool) -> QueueFamily {
    QueueFamily { graphics, surface_support }
}

fn device(khr_swapchain: bool, device_type: PhysicalDeviceType, queue_families: Vec<QueueFamily>) -> PhysicalDevice {
    PhysicalDevice { khr_swapchain, device_type, queue_families }
}

#[test]
fn queue_family_must_draw_and_present() {
    let families = vec![family(true, false), family(false, true), family(true, true), family(true, true)];
    assert_eq!(find_queue_family(&families), Some(2));
}

#[test]
fn queue_family_none_suitable() {
    let families = vec![family(true, false), family(false, true), family(false, false)];
    assert_eq!(find_queue_family(&families), None);
    assert_eq!(find_queue_family(&Vec::new()), None);
}

#[test]
fn discrete_gpu_is_preferred() {
    let devices = vec![
        device(true, PhysicalDeviceType::Cpu, vec![family(true, true)]),
        device(true, PhysicalDeviceType::IntegratedGpu, vec![family(true, true)]),
        device(true, PhysicalDeviceType::DiscreteGpu, vec![family(false, false), family(true, true)]),
        device(true, PhysicalDeviceType::VirtualGpu, vec![family(true, true)]),
    ];
    assert_eq!(select_device(&devices), Some((2, 1)));
}

#[test]
fn preference_order_of_kinds() {
    let other = device(true, PhysicalDeviceType::Other, vec![family(true, true)]);
    let cpu = device(true, PhysicalDeviceType::Cpu, vec![family(true, true)]);
    assert_eq!(select_device(&vec![other, cpu]), Some((1, 0)));
    let cpu = device(true, PhysicalDeviceType::Cpu, vec![family(true, true)]);
    let virtual_gpu = device(true, PhysicalDeviceType::VirtualGpu, vec![family(true, true)]);
    assert_eq!(select_device(&vec![cpu, virtual_gpu]), Some((1, 0)));
    let virtual_gpu = device(true, PhysicalDeviceType::VirtualGpu, vec![family(true, true)]);
    let integrated = device(true, PhysicalDeviceType::IntegratedGpu, vec![family(true, true)]);
    assert_eq!(select_device(&vec![virtual_gpu, integrated]), Some((1, 0)));
}

#[test]
fn first_of_equal_kind_wins() {
    let devices = vec![
        device(true, PhysicalDeviceType::IntegratedGpu, vec![family(true, true)]),
        device(true, PhysicalDeviceType::IntegratedGpu, vec![family(true, true)]),
    ];
    assert_eq!(select_device(&devices), Some((0, 0)));
}

#[test]
fn devices_without_swapchain_or_family_are_skipped() {
    let devices = vec![
        device(false, PhysicalDeviceType::DiscreteGpu, vec![family(true, true)]),
        device(true, PhysicalDeviceType::DiscreteGpu, vec![family(true, false)]),
        device(true, PhysicalDeviceType::Cpu, vec![family(false, true), family(true, true)]),
    ];
    assert_eq!(select_device(&devices), Some((2, 1)));
}

#[test]
fn no_compatible_device() {
    assert_eq!(select_device(&Vec::new()), None);
    let devices = vec![
        device(false, PhysicalDeviceType::DiscreteGpu, vec![family(true, true)]),
        device(true, PhysicalDeviceType::IntegratedGpu, Vec::new()),
    ];
    assert_eq!(select_device(&devices), None);
}

#[test]
fn initial_swapchain_takes_first_format_and_mode() {
    let capabilities = SurfaceCapabilities {
        min_image_count: 2,
        supported_composite_alpha: vec![CompositeAlpha::PreMultiplied, CompositeAlpha::Opaque],
    };
    let dimensions = Extent { width: 800, height: 600 };
    assert_eq!(
        initial_swapchain(&capabilities, 5, dimensions),
        Some(SwapchainCreateInfo {
            min_image_count: 2,
            image_format: 0,
            image_extent: dimensions,
            composite_alpha: CompositeAlpha::PreMultiplied,
        })
    );
}

#[test]
fn initial_swapchain_needs_a_format_and_a_mode() {
    let dimensions = Extent { width: 800, height: 600 };
    let capabilities = SurfaceCapabilities { min_image_count: 2, supported_composite_alpha: vec![CompositeAlpha::Opaque] };
    assert_eq!(initial_swapchain(&capabilities, 0, dimensions), None);
    let capabilities = SurfaceCapabilities { min_image_count: 2, supported_composite_alpha: Vec::new() };
    assert_eq!(initial_swapchain(&capabilities, 3, dimensions), None);
}
