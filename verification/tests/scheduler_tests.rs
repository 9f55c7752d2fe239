use pageview::drawable::Drawable;
use pageview::page::Page;
use pageview::render::Acquisition;
use pageview::render::Extent;
use pageview::render::Framebuffer;
use pageview::render::Renderer;
use pageview::render::RendererContext;
use pageview::render::SwapchainRecreation;
use pageview::render::Viewport;
use pageview::scheduler::FlushOutcome;
use pageview::scheduler::FramePlan;
use pageview::scheduler::FrameScheduler;
use pageview::scheduler::FrameSlot;
use pageview::scheduler::Rebuild;
use pageview::ui::UI;

fn extent(width: u32, height: u32) -> Extent {
    Extent { width, height }
}

fn setup(images: u32) -> (RendererContext, Vec<Page>, FrameScheduler) {
    let context = RendererContext::new(images, extent(800, 600));
    let pages = vec![Page::new(&context, &vec![[0, 0]; 4])];
    let scheduler = FrameScheduler::new(images);
    (context, pages, scheduler)
}

fn image(index: u32) -> Acquisition {
    Acquisition::Image { index, suboptimal: false }
}

#[test]
fn scheduler_starts_with_empty_slots() {
    let scheduler = FrameScheduler::new(3);
    assert_eq!(*scheduler.get_slots(), vec![FrameSlot::Empty; 3]);
    assert!(!scheduler.needs_recreation());
    assert!(!scheduler.is_window_resized());
    assert_eq!(scheduler.get_previous(), 0);
    assert_eq!(scheduler.get_submitting(), None);
    assert_eq!(scheduler.frames_in_flight(), 0);
}

#[test]
fn first_frame_submits_at_once() {
    let (context, pages, mut scheduler) = setup(3);
    let plan = scheduler.plan_frame(&context, &pages, image(0));
    assert_eq!(plan, FramePlan::Submit { image_i: 0, wait: false, after: None });
    assert_eq!(scheduler.get_submitting(), Some(0));
    assert!(scheduler.submitted(FlushOutcome::Flushed));
    assert_eq!(*scheduler.get_slots(), vec![FrameSlot::InFlight, FrameSlot::Empty, FrameSlot::Empty]);
    assert_eq!(scheduler.get_previous(), 0);
    assert_eq!(scheduler.get_submitting(), None);
    assert_eq!(scheduler.frames_in_flight(), 1);
}

#[test]
fn second_frame_follows_the_previous_fence() {
    let (context, pages, mut scheduler) = setup(3);
    scheduler.plan_frame(&context, &pages, image(0));
    scheduler.submitted(FlushOutcome::Flushed);
    let plan = scheduler.plan_frame(&context, &pages, image(1));
    assert_eq!(plan, FramePlan::Submit { image_i: 1, wait: false, after: Some(0) });
    scheduler.submitted(FlushOutcome::Flushed);
    assert_eq!(scheduler.get_previous(), 1);
    assert_eq!(scheduler.frames_in_flight(), 2);
}

#[test]
fn reused_slot_is_waited_for() {
    let (context, pages, mut scheduler) = setup(2);
    scheduler.plan_frame(&context, &pages, image(0));
    scheduler.submitted(FlushOutcome::Flushed);
    scheduler.plan_frame(&context, &pages, image(1));
    scheduler.submitted(FlushOutcome::Flushed);
    assert_eq!(scheduler.frames_in_flight(), 2);
    let plan = scheduler.plan_frame(&context, &pages, image(0));
    assert_eq!(plan, FramePlan::Submit { image_i: 0, wait: true, after: Some(1) });
    assert_eq!(*scheduler.get_slots(), vec![FrameSlot::Completed, FrameSlot::InFlight]);
    assert_eq!(scheduler.frames_in_flight(), 1);
    scheduler.submitted(FlushOutcome::Flushed);
    assert_eq!(*scheduler.get_slots(), vec![FrameSlot::InFlight, FrameSlot::InFlight]);
}

#[test]
fn same_image_twice_depends_on_its_own_waited_fence() {
    let (context, pages, mut scheduler) = setup(2);
    scheduler.plan_frame(&context, &pages, image(1));
    scheduler.submitted(FlushOutcome::Flushed);
    let plan = scheduler.plan_frame(&context, &pages, image(1));
    assert_eq!(plan, FramePlan::Submit { image_i: 1, wait: true, after: Some(1) });
}

#[test]
fn frames_in_flight_never_exceed_image_count() {
    for images in 2..5u32 {
        let (context, pages, mut scheduler) = setup(images);
        for frame in 0..(4 * images) {
            let plan = scheduler.plan_frame(&context, &pages, image(frame % images));
            assert!(matches!(plan, FramePlan::Submit { .. }));
            assert!(scheduler.submitted(FlushOutcome::Flushed));
            assert!(scheduler.frames_in_flight() <= images as usize);
        }
        assert_eq!(scheduler.frames_in_flight(), images as usize);
    }
}

#[test]
fn out_of_date_acquire_skips_the_frame() {
    let (context, pages, mut scheduler) = setup(2);
    let plan = scheduler.plan_frame(&context, &pages, Acquisition::OutOfDate);
    assert_eq!(plan, FramePlan::Skip);
    assert!(scheduler.needs_recreation());
    assert!(!scheduler.is_window_resized());
    assert_eq!(scheduler.get_submitting(), None);
    assert!(!scheduler.submitted(FlushOutcome::Flushed));
    assert_eq!(*scheduler.get_slots(), vec![FrameSlot::Empty; 2]);
}

#[test]
fn unknown_image_skips_the_frame() {
    let (context, pages, mut scheduler) = setup(2);
    let plan = scheduler.plan_frame(&context, &pages, image(2));
    assert_eq!(plan, FramePlan::Skip);
    assert!(scheduler.needs_recreation());
}

#[test]
fn suboptimal_image_is_drawn_and_asks_for_recreation() {
    let (context, pages, mut scheduler) = setup(2);
    let plan = scheduler.plan_frame(&context, &pages, Acquisition::Image { index: 1, suboptimal: true });
    assert_eq!(plan, FramePlan::Submit { image_i: 1, wait: false, after: None });
    assert!(scheduler.needs_recreation());
    assert!(scheduler.submitted(FlushOutcome::Flushed));
    assert_eq!(scheduler.get_slots()[1], FrameSlot::InFlight);
}

#[test]
fn out_of_date_flush_empties_the_slot() {
    let (context, pages, mut scheduler) = setup(2);
    scheduler.plan_frame(&context, &pages, image(0));
    scheduler.submitted(FlushOutcome::Flushed);
    scheduler.plan_frame(&context, &pages, image(0));
    assert!(scheduler.submitted(FlushOutcome::OutOfDate));
    assert_eq!(scheduler.get_slots()[0], FrameSlot::Empty);
    assert!(scheduler.needs_recreation());
    assert_eq!(scheduler.get_previous(), 0);
}

#[test]
fn failed_flush_drops_the_frame_and_goes_on() {
    let (context, pages, mut scheduler) = setup(2);
    scheduler.plan_frame(&context, &pages, image(1));
    assert!(scheduler.submitted(FlushOutcome::Failed));
    assert_eq!(scheduler.get_slots()[1], FrameSlot::Empty);
    assert!(!scheduler.needs_recreation());
    assert_eq!(scheduler.get_previous(), 1);
    let plan = scheduler.plan_frame(&context, &pages, image(0));
    assert_eq!(plan, FramePlan::Submit { image_i: 0, wait: false, after: None });
}

#[test]
fn submitted_without_plan_changes_nothing() {
    let mut scheduler = FrameScheduler::new(2);
    assert!(!scheduler.submitted(FlushOutcome::Flushed));
    assert_eq!(*scheduler.get_slots(), vec![FrameSlot::Empty; 2]);
    assert_eq!(scheduler.get_previous(), 0);
    assert!(!scheduler.needs_recreation());
}

#[test]
fn resize_scenario_unsupported_then_valid() {
    let (mut context, mut pages, mut scheduler) = setup(3);
    scheduler.resized();
    assert!(scheduler.needs_recreation());
    for _ in 0..3 {
        let rebuild =
            scheduler.recreate(&mut context, &mut pages, extent(0, 0), SwapchainRecreation::ImageExtentNotSupported);
        assert_eq!(rebuild, Rebuild::Nothing);
        assert!(scheduler.needs_recreation());
        assert!(scheduler.is_window_resized());
        assert_eq!(context.get_generation(), 0);
        assert_eq!(*context.get_viewport(), Viewport { dimensions: extent(800, 600) });
    }
    let rebuild =
        scheduler.recreate(&mut context, &mut pages, extent(640, 480), SwapchainRecreation::Recreated { image_count: 3 });
    assert_eq!(rebuild, Rebuild::Pipelines);
    assert!(!scheduler.needs_recreation());
    assert_eq!(context.get_framebuffer_count(), 3);
    assert_eq!(context.get_framebuffers().len(), 3);
    assert_eq!(*context.get_viewport(), Viewport { dimensions: extent(640, 480) });
    assert_eq!(pages[0].get_grid_pipeline().viewport, Viewport { dimensions: extent(640, 480) });
    assert!(pages[0].is_current(&context));
}

#[test]
fn recreation_without_resize_rebuilds_command_buffers_only() {
    let (mut context, mut pages, mut scheduler) = setup(2);
    scheduler.plan_frame(&context, &pages, Acquisition::OutOfDate);
    let rebuild =
        scheduler.recreate(&mut context, &mut pages, extent(1024, 768), SwapchainRecreation::Recreated { image_count: 2 });
    assert_eq!(rebuild, Rebuild::CommandBuffers);
    assert!(!scheduler.needs_recreation());
    assert_eq!(*context.get_viewport(), Viewport { dimensions: extent(800, 600) });
    assert_eq!(context.get_extent(), extent(1024, 768));
    assert_eq!(pages[0].get_grid_pipeline().viewport, Viewport { dimensions: extent(800, 600) });
    assert!(pages[0].is_current(&context));
    for image_i in 0..2u32 {
        assert_eq!(pages[0].execute_cmd_buf(image_i).framebuffer, Framebuffer { image: image_i, generation: 1 });
    }
}

#[test]
fn recreation_follows_the_new_image_count() {
    let (mut context, mut pages, mut scheduler) = setup(3);
    scheduler.plan_frame(&context, &pages, image(0));
    scheduler.submitted(FlushOutcome::Flushed);
    scheduler.plan_frame(&context, &pages, image(2));
    scheduler.submitted(FlushOutcome::Flushed);
    assert_eq!(scheduler.get_previous(), 2);
    scheduler.recreate(&mut context, &mut pages, extent(800, 600), SwapchainRecreation::Recreated { image_count: 2 });
    assert_eq!(*scheduler.get_slots(), vec![FrameSlot::InFlight, FrameSlot::Empty]);
    assert_eq!(scheduler.get_previous(), 0);
    scheduler.recreate(&mut context, &mut pages, extent(800, 600), SwapchainRecreation::Recreated { image_count: 4 });
    assert_eq!(
        *scheduler.get_slots(),
        vec![FrameSlot::InFlight, FrameSlot::Empty, FrameSlot::Empty, FrameSlot::Empty]
    );
    assert_eq!(pages[0].is_current(&context), true);
}

#[test]
fn recreation_forgets_a_planned_submission() {
    let (mut context, mut pages, mut scheduler) = setup(2);
    scheduler.plan_frame(&context, &pages, image(1));
    scheduler.recreate(&mut context, &mut pages, extent(800, 600), SwapchainRecreation::Recreated { image_count: 2 });
    assert_eq!(scheduler.get_submitting(), None);
    assert!(!scheduler.submitted(FlushOutcome::Flushed));
    assert_eq!(*scheduler.get_slots(), vec![FrameSlot::Empty; 2]);
}

#[test]
fn stale_command_buffers_are_never_submitted() {
    let (mut context, pages, mut scheduler) = setup(2);
    // The swapchain is replaced behind the drawable's back.
    context.update_swapchain(extent(800, 600), SwapchainRecreation::Recreated { image_count: 2 });
    assert!(!pages[0].is_current(&context));
    let plan = scheduler.plan_frame(&context, &pages, image(0));
    assert_eq!(plan, FramePlan::Skip);
    assert!(scheduler.needs_recreation());
    assert!(scheduler.is_window_resized());
    assert_eq!(scheduler.get_submitting(), None);
}

#[test]
fn stale_pipeline_is_never_submitted() {
    let (mut context, pages, mut scheduler) = setup(2);
    context.update_viewport(extent(400, 300));
    assert!(!pages[0].is_current(&context));
    assert_eq!(scheduler.plan_frame(&context, &pages, image(1)), FramePlan::Skip);
    assert!(scheduler.is_window_resized());
}

#[test]
fn every_submission_after_recreation_uses_current_framebuffers() {
    let (mut context, mut pages, mut scheduler) = setup(2);
    for round in 0..4u32 {
        scheduler.resized();
        scheduler.recreate(
            &mut context,
            &mut pages,
            extent(800 + round, 600),
            SwapchainRecreation::Recreated { image_count: 2 },
        );
        for frame in 0..3u32 {
            match scheduler.plan_frame(&context, &pages, image(frame % 2)) {
                FramePlan::Submit { image_i, .. } => {
                    let command_buffer = pages[0].execute_cmd_buf(image_i);
                    assert_eq!(command_buffer.framebuffer, context.get_framebuffers()[image_i as usize]);
                    assert_eq!(command_buffer.framebuffer.generation, context.get_generation());
                },
                FramePlan::Skip => panic!("a fresh drawable must be submitted"),
            }
            scheduler.submitted(FlushOutcome::Flushed);
        }
    }
}

#[test]
fn timed_out_acquire_skips_the_frame_without_recreation() {
    let (context, pages, mut scheduler) = setup(2);
    scheduler.plan_frame(&context, &pages, image(0));
    scheduler.submitted(FlushOutcome::Flushed);
    let plan = scheduler.plan_frame(&context, &pages, Acquisition::Timeout);
    assert_eq!(plan, FramePlan::Skip);
    assert!(!scheduler.needs_recreation());
    assert_eq!(scheduler.get_submitting(), None);
    assert_eq!(*scheduler.get_slots(), vec![FrameSlot::InFlight, FrameSlot::Empty]);
    assert_eq!(scheduler.get_previous(), 0);
}

#[test]
fn every_drawable_is_rebuilt_on_recreation() {
    let mut context = RendererContext::new(2, extent(800, 600));
    let mut drawables = vec![
        Drawable::Page(Page::new(&context, &vec![[0, 0]; 4])),
        Drawable::UITestWidget(UI::new(&context)),
    ];
    let mut scheduler = FrameScheduler::new(2);
    scheduler.resized();
    let rebuild = scheduler.recreate(
        &mut context,
        &mut drawables,
        extent(640, 480),
        SwapchainRecreation::Recreated { image_count: 3 },
    );
    assert_eq!(rebuild, Rebuild::Pipelines);
    for drawable in &drawables {
        assert!(drawable.is_current(&context));
        assert_eq!(drawable.create_pipeline(&context).viewport, Viewport { dimensions: extent(640, 480) });
        for image_i in 0..3u32 {
            assert_eq!(drawable.execute_cmd_buf(image_i).framebuffer, Framebuffer { image: image_i, generation: 1 });
        }
    }
    assert_eq!(drawables[0].execute_cmd_buf(0).commands.len(), 10);
    assert_eq!(drawables[1].execute_cmd_buf(0).commands.len(), 6);
    assert!(matches!(
        scheduler.plan_frame(&context, &drawables, image(2)),
        FramePlan::Submit { image_i: 2, wait: false, after: None }
    ));
}

#[test]
fn one_stale_drawable_holds_the_frame_back() {
    let mut context = RendererContext::new(2, extent(800, 600));
    let mut drawables = vec![
        Drawable::Page(Page::new(&context, &vec![[0, 0]; 4])),
        Drawable::UITestWidget(UI::new(&context)),
    ];
    context.update_swapchain(extent(800, 600), SwapchainRecreation::Recreated { image_count: 2 });
    drawables[0].update_command_buffers(&context);
    assert!(drawables[0].is_current(&context));
    assert!(!drawables[1].is_current(&context));
    let mut scheduler = FrameScheduler::new(2);
    assert_eq!(scheduler.plan_frame(&context, &drawables, image(0)), FramePlan::Skip);
    drawables[1].update_command_buffers(&context);
    assert!(matches!(scheduler.plan_frame(&context, &drawables, image(0)), FramePlan::Submit { .. }));
}

#[test]
fn frame_without_drawables_is_submitted() {
    let context = RendererContext::new(2, extent(800, 600));
    let drawables: Vec<Drawable> = Vec::new();
    let mut scheduler = FrameScheduler::new(2);
    assert_eq!(
        scheduler.plan_frame(&context, &drawables, image(1)),
        FramePlan::Submit { image_i: 1, wait: false, after: None }
    );
}
