use pageview::input::Dispatch;
use pageview::input::ElementState;
use pageview::input::Event;
use pageview::input::InputRouter;
use pageview::input::MouseButton;
use pageview::page::Page;
use pageview::page::ONE;
use pageview::render::Extent;
use pageview::render::Renderer;
use pageview::render::RendererContext;
use pageview::scheduler::FrameScheduler;

fn setup() -> (InputRouter, FrameScheduler, Page, RendererContext) {
    let context = RendererContext::new(2, Extent { width: 800, height: 600 });
    let page = Page::new(&context, &vec![[0, 0]; 4]);
    (InputRouter::new(), FrameScheduler::new(2), page, context)
}

fn button(state: ElementState, button: MouseButton) -> Event {
    Event::MouseInput { state, button }
}

#[test]
fn close_request_exits() {
    let (mut router, mut scheduler, mut page, context) = setup();
    assert_eq!(router.dispatch(Event::CloseRequested, &mut scheduler, &mut page, &context), Dispatch::Exit);
    assert!(!scheduler.needs_recreation());
}

#[test]
fn resize_is_noted_in_the_scheduler() {
    let (mut router, mut scheduler, mut page, context) = setup();
    assert_eq!(router.dispatch(Event::Resized, &mut scheduler, &mut page, &context), Dispatch::Idle);
    assert!(scheduler.is_window_resized());
    assert!(scheduler.needs_recreation());
}

#[test]
fn events_cleared_asks_for_a_frame() {
    let (mut router, mut scheduler, mut page, context) = setup();
    assert_eq!(router.dispatch(Event::MainEventsCleared, &mut scheduler, &mut page, &context), Dispatch::Frame);
    assert_eq!(router.dispatch(Event::Other, &mut scheduler, &mut page, &context), Dispatch::Idle);
}

#[test]
fn left_button_controls_the_drag() {
    let (mut router, mut scheduler, mut page, context) = setup();
    assert!(!router.is_dragging());
    router.dispatch(button(ElementState::Pressed, MouseButton::Right), &mut scheduler, &mut page, &context);
    assert!(!router.is_dragging());
    router.dispatch(button(ElementState::Pressed, MouseButton::Left), &mut scheduler, &mut page, &context);
    assert!(router.is_dragging());
    router.dispatch(button(ElementState::Released, MouseButton::Middle), &mut scheduler, &mut page, &context);
    assert!(router.is_dragging());
    router.dispatch(button(ElementState::Released, MouseButton::Left), &mut scheduler, &mut page, &context);
    assert!(!router.is_dragging());
}

#[test]
fn motion_pans_only_while_dragging() {
    let (mut router, mut scheduler, mut page, context) = setup();
    let motion = Event::MouseMotion { delta: (3 * ONE as i64, -3 * (ONE as i64)) };
    assert_eq!(router.dispatch(motion, &mut scheduler, &mut page, &context), Dispatch::Idle);
    assert_eq!(page.get_transform().u_translate, [0, 0]);
    router.dispatch(button(ElementState::Pressed, MouseButton::Left), &mut scheduler, &mut page, &context);
    assert_eq!(router.dispatch(motion, &mut scheduler, &mut page, &context), Dispatch::Recorded);
    assert_eq!(page.get_transform().u_translate, [32212254, -42949672]);
    router.dispatch(button(ElementState::Released, MouseButton::Left), &mut scheduler, &mut page, &context);
    assert_eq!(router.dispatch(motion, &mut scheduler, &mut page, &context), Dispatch::Idle);
    assert_eq!(page.get_transform().u_translate, [32212254, -42949672]);
}

#[test]
fn wheel_zooms_by_its_sign() {
    let (mut router, mut scheduler, mut page, context) = setup();
    assert_eq!(
        router.dispatch(Event::MouseWheel { scroll: ONE as i64 }, &mut scheduler, &mut page, &context),
        Dispatch::Recorded
    );
    assert_eq!(page.get_scale(), 4512400014);
    let (mut router, mut scheduler, mut page, context) = setup();
    router.dispatch(Event::MouseWheel { scroll: -15 }, &mut scheduler, &mut page, &context);
    assert_eq!(page.get_scale(), 4082903285);
    assert!(page.is_current(&context));
    assert!(!scheduler.needs_recreation());
}
