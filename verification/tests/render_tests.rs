use pageview::render::Acquisition;
use pageview::render::Extent;
use pageview::render::Framebuffer;
use pageview::render::RendererContext;
use pageview::render::SwapchainRecreation;
use pageview::render::Viewport;

fn extent(width: u32, height: u32) -> Extent {
    Extent { width, height }
}

#[test]
fn new_context_has_one_framebuffer_per_image() {
    let context = RendererContext::new(3, extent(800, 600));
    assert_eq!(context.get_framebuffer_count(), 3);
    assert_eq!(
        *context.get_framebuffers(),
        vec![
            Framebuffer { image: 0, generation: 0 },
            Framebuffer { image: 1, generation: 0 },
            Framebuffer { image: 2, generation: 0 },
        ]
    );
    assert_eq!(*context.get_viewport(), Viewport { dimensions: extent(800, 600) });
    assert_eq!(context.get_extent(), extent(800, 600));
    assert_eq!(context.get_generation(), 0);
}

#[test]
fn unsupported_extent_changes_nothing() {
    let mut context = RendererContext::new(2, extent(800, 600));
    let recreated = context.update_swapchain(extent(0, 0), SwapchainRecreation::ImageExtentNotSupported);
    assert!(!recreated);
    assert_eq!(context.get_generation(), 0);
    assert_eq!(context.get_extent(), extent(800, 600));
    assert_eq!(context.get_framebuffer_count(), 2);
    assert_eq!(context.get_framebuffers()[1], Framebuffer { image: 1, generation: 0 });
}

#[test]
fn recreation_rebuilds_every_framebuffer() {
    let mut context = RendererContext::new(2, extent(800, 600));
    let recreated = context.update_swapchain(extent(1024, 768), SwapchainRecreation::Recreated { image_count: 3 });
    assert!(recreated);
    assert_eq!(context.get_generation(), 1);
    assert_eq!(context.get_extent(), extent(1024, 768));
    assert_eq!(context.get_framebuffer_count(), 3);
    for (image, framebuffer) in context.get_framebuffers().iter().enumerate() {
        assert_eq!(*framebuffer, Framebuffer { image: image as u32, generation: 1 });
    }
    // The viewport is left to update_viewport.
    assert_eq!(*context.get_viewport(), Viewport { dimensions: extent(800, 600) });
}

#[test]
fn resize_to_unsupported_then_valid_extent() {
    let mut context = RendererContext::new(3, extent(800, 600));
    assert!(!context.update_swapchain(extent(0, 0), SwapchainRecreation::ImageExtentNotSupported));
    assert!(!context.update_swapchain(extent(0, 0), SwapchainRecreation::ImageExtentNotSupported));
    assert!(context.update_swapchain(extent(640, 480), SwapchainRecreation::Recreated { image_count: 3 }));
    assert_eq!(context.get_framebuffer_count(), 3);
    assert_eq!(context.get_framebuffers().len(), 3);
    assert_eq!(context.get_extent(), extent(640, 480));
}

#[test]
fn update_viewport_touches_only_the_viewport() {
    let mut context = RendererContext::new(2, extent(800, 600));
    context.update_viewport(extent(400, 300));
    assert_eq!(*context.get_viewport(), Viewport { dimensions: extent(400, 300) });
    assert_eq!(context.get_extent(), extent(800, 600));
    assert_eq!(context.get_generation(), 0);
    assert_eq!(context.get_framebuffer_count(), 2);
}

#[test]
fn next_image_passes_index_and_flag() {
    let context = RendererContext::new(3, extent(800, 600));
    assert_eq!(context.next_image(Acquisition::Image { index: 2, suboptimal: false }), Some((2, false)));
    assert_eq!(context.next_image(Acquisition::Image { index: 0, suboptimal: true }), Some((0, true)));
}

#[test]
fn next_image_out_of_date_is_try_later() {
    let context = RendererContext::new(3, extent(800, 600));
    assert_eq!(context.next_image(Acquisition::OutOfDate), None);
    assert_eq!(context.next_image(Acquisition::Timeout), None);
}

#[test]
fn acquire_timeout_is_short() {
    assert_eq!(pageview::render::ACQUIRE_TIMEOUT_MICROS, 1);
}

#[test]
fn next_image_refuses_unknown_index() {
    let context = RendererContext::new(3, extent(800, 600));
    assert_eq!(context.next_image(Acquisition::Image { index: 3, suboptimal: false }), None);
}

#[test]
fn context_without_images() {
    let context = RendererContext::new(0, extent(1, 1));
    assert_eq!(context.get_framebuffer_count(), 0);
    assert_eq!(context.next_image(Acquisition::Image { index: 0, suboptimal: false }), None);
}
