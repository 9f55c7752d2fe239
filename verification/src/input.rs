use vstd::prelude::*;
use crate::page::Page;
use crate::render::Renderer;
use crate::render::RendererContext;
use crate::scheduler::FrameScheduler;

verus! {

/// A mouse button.
#[derive(Clone, Copy, Debug, PartialEq, Eq, Structural)]
pub enum MouseButton {
    Left,
    Right,
    Middle,
    Other,
}

/// Whether a button went down or up.
#[derive(Clone, Copy, Debug, PartialEq, Eq, Structural)]
pub enum ElementState {
    Pressed,
    Released,
}

/// An event of the window or of an input device, as far as the viewer cares.
/// Motion and wheel deltas are 32.32 fixed-point numbers.
#[derive(Clone, Copy, Debug, PartialEq, Eq)]
pub enum Event {
    CloseRequested,
    Resized,
    MouseInput { state: ElementState, button: MouseButton },
    /// Raw motion of the pointing device, in pixels per axis.
    MouseMotion { delta: (i64, i64) },
    /// The vertical scroll amount, in lines or pixels.
    MouseWheel { scroll: i64 },
    /// All pending events were delivered; it is time to draw.
    MainEventsCleared,
    /// Anything else.
    Other,
}

/// What the event loop has to do after an event was routed.
#[derive(Clone, Copy, Debug, PartialEq, Eq, Structural)]
pub enum Dispatch {
    /// Leave the event loop.
    Exit,
    /// Run one iteration of the frame loop.
    Frame,
    /// The page recorded new command buffers and regenerated its grid; the GPU
    /// objects have to follow.
    Recorded,
    /// Nothing.
    Idle,
}

/// Routes window and device events to the page and the frame scheduler, and keeps
/// track of whether a drag is under way.
pub struct InputRouter {
    drag: bool,
}

impl InputRouter {
    /// Whether the left mouse button is held.
    pub closed spec fn drag(&self) -> bool {
        self.drag
    }

    /// A router with no drag under way.
    pub fn new() -> (router: Self)
        ensures
            !router.drag(),
    {
        InputRouter { drag: false }
    }

    /// Whether the left mouse button is held.
    pub fn is_dragging(&self) -> (drag: bool)
        ensures
            drag == self.drag(),
    {
        self.drag
    }

    /// Handles one event.
    ///
    /// A close request ends the loop. A resize is noted in the scheduler. The left
    /// button starts a drag when pressed and ends it when released; other buttons
    /// do nothing. Motion pans the page while a drag is under way; the wheel zooms
    /// it. When all events are delivered a frame is due. Whatever an event does
    /// not concern stays as it is.
    pub fn dispatch(
        &mut self,
        event: Event,
        scheduler: &mut FrameScheduler,
        page: &mut Page,
        render_context: &RendererContext,
    ) -> (dispatch: Dispatch)
        requires
            old(scheduler).wf(),
            old(page).wf(),
            render_context.wf(),
        ensures
            final(scheduler).wf(),
            final(page).wf(),
            match event {
                Event::CloseRequested => {
                    &&& dispatch == Dispatch::Exit
                    &&& final(self).drag() == old(self).drag()
                    &&& *final(scheduler) == *old(scheduler)
                    &&& *final(page) == *old(page)
                },
                Event::Resized => {
                    &&& dispatch == Dispatch::Idle
                    &&& final(self).drag() == old(self).drag()
                    &&& final(scheduler).window_resized()
                    &&& final(scheduler).recreate_swapchain() == old(scheduler).recreate_swapchain()
                    &&& final(scheduler).slots() == old(scheduler).slots()
                    &&& final(scheduler).previous() == old(scheduler).previous()
                    &&& final(scheduler).submitting() == old(scheduler).submitting()
                    &&& *final(page) == *old(page)
                },
                Event::MouseInput { state, button } => {
                    &&& dispatch == Dispatch::Idle
                    &&& final(self).drag() == if button is Left {
                        state is Pressed
                    } else {
                        old(self).drag()
                    }
                    &&& *final(scheduler) == *old(scheduler)
                    &&& *final(page) == *old(page)
                },
                Event::MouseMotion { delta } => {
                    &&& final(self).drag() == old(self).drag()
                    &&& *final(scheduler) == *old(scheduler)
                    &&& if old(self).drag() {
                        &&& dispatch == Dispatch::Recorded
                        &&& final(page).is_translation_of(old(page), delta, render_context)
                    } else {
                        &&& dispatch == Dispatch::Idle
                        &&& *final(page) == *old(page)
                    }
                },
                Event::MouseWheel { scroll } => {
                    &&& dispatch == Dispatch::Recorded
                    &&& final(self).drag() == old(self).drag()
                    &&& *final(scheduler) == *old(scheduler)
                    &&& final(page).is_zoom_of(old(page), scroll, render_context)
                },
                Event::MainEventsCleared => {
                    &&& dispatch == Dispatch::Frame
                    &&& final(self).drag() == old(self).drag()
                    &&& *final(scheduler) == *old(scheduler)
                    &&& *final(page) == *old(page)
                },
                Event::Other => {
                    &&& dispatch == Dispatch::Idle
                    &&& final(self).drag() == old(self).drag()
                    &&& *final(scheduler) == *old(scheduler)
                    &&& *final(page) == *old(page)
                },
            },
    {
        match event {
            Event::CloseRequested => Dispatch::Exit,
            Event::Resized => {
                scheduler.resized();
                Dispatch::Idle
            },
            Event::MouseInput { state, button } => {
                if button == MouseButton::Left {
                    self.drag = state == ElementState::Pressed;
                }
                Dispatch::Idle
            },
            Event::MouseMotion { delta } => {
                if self.drag {
                    page.translate(delta, render_context);
                    Dispatch::Recorded
                } else {
                    Dispatch::Idle
                }
            },
            Event::MouseWheel { scroll } => {
                page.zoom(scroll, render_context);
                Dispatch::Recorded
            },
            Event::MainEventsCleared => Dispatch::Frame,
            Event::Other => Dispatch::Idle,
        }
    }
}

} // verus!
