use vstd::prelude::*;
use crate::commands::record_each;
use crate::commands::Command;
use crate::commands::CommandBuffer;
use crate::commands::GraphicsPipeline;
use crate::commands::RecordedCommands;

verus! {

/// A size in physical pixels: of the window, of the swapchain images, of the viewport.
#[derive(Clone, Copy, Debug, PartialEq, Eq, Structural)]
pub struct Extent {
    pub width: u32,
    pub height: u32,
}

/// The viewport rectangle. Its origin is always the top-left corner and its depth
/// range the unit interval, so only the dimensions are kept.
#[derive(Clone, Copy, Debug, PartialEq, Eq, Structural)]
pub struct Viewport {
    pub dimensions: Extent,
}

/// A render target: one swapchain image bound under the render pass, stamped with
/// the swapchain generation it was built from. Stamps are compared for equality only.
#[derive(Clone, Copy, Debug, PartialEq, Eq, Structural)]
pub struct Framebuffer {
    pub image: u32,
    pub generation: u64,
}

/// What the presentation engine answered to a request to rebuild the swapchain.
#[derive(Clone, Copy, Debug, PartialEq, Eq, Structural)]
pub enum SwapchainRecreation {
    /// A new swapchain with this many images replaced the old one.
    Recreated { image_count: u32 },
    /// The requested extent cannot be used right now; nothing was replaced.
    ImageExtentNotSupported,
}

/// What the presentation engine answered to a request for the next image.
#[derive(Clone, Copy, Debug, PartialEq, Eq, Structural)]
pub enum Acquisition {
    /// An image is ready; `suboptimal` tells that the swapchain still works but no
    /// longer matches the surface.
    Image { index: u32, suboptimal: bool },
    /// The surface changed and the swapchain cannot be used until it is rebuilt.
    OutOfDate,
    /// No image became available within the timeout.
    Timeout,
}

/// How long an image request may wait for the presentation engine, in
/// microseconds. The wait is kept short so that the loop stays responsive to
/// resize and close events.
pub const ACQUIRE_TIMEOUT_MICROS: u64 = 1;

/// The generation stamp that follows `generation`.
pub open spec fn next_generation(generation: u64) -> u64 {
    if generation == u64::MAX {
        0
    } else {
        (generation + 1) as u64
    }
}

/// The framebuffers of a swapchain of `count` images at `generation`: one per image,
/// in image order.
pub open spec fn framebuffers_of(count: u32, generation: u64) -> Seq<Framebuffer> {
    Seq::new(count as nat, |i: int| Framebuffer { image: i as u32, generation })
}

/// All swapchain-dependent state, mutated as one unit: the number of swapchain
/// images, their extent, one framebuffer per image, the viewport, and the
/// generation stamp of the current swapchain.
pub struct RendererContext {
    image_count: u32,
    extent: Extent,
    framebuffers: Vec<Framebuffer>,
    viewport: Viewport,
    generation: u64,
}

/// Builds one framebuffer per swapchain image, all stamped with `generation`.
fn create_framebuffers(image_count: u32, generation: u64) -> (framebuffers: Vec<Framebuffer>)
    ensures
        framebuffers@ == framebuffers_of(image_count, generation),
{
    let mut framebuffers: Vec<Framebuffer> = Vec::new();
    let mut image: u32 = 0;
    while image < image_count
        invariant
            image <= image_count,
            framebuffers@ == framebuffers_of(image, generation),
        decreases image_count - image,
    {
        framebuffers.push(Framebuffer { image, generation });
        image = image + 1;
        assert(framebuffers@ =~= framebuffers_of(image, generation));
    }
    framebuffers
}

impl RendererContext {
    /// The number of images in the current swapchain.
    pub closed spec fn image_count(&self) -> u32 {
        self.image_count
    }

    /// The extent of the current swapchain images.
    pub closed spec fn extent(&self) -> Extent {
        self.extent
    }

    /// The framebuffers, in image order.
    pub closed spec fn framebuffers(&self) -> Seq<Framebuffer> {
        self.framebuffers@
    }

    /// The current viewport.
    pub closed spec fn viewport(&self) -> Viewport {
        self.viewport
    }

    /// The stamp of the current swapchain.
    pub closed spec fn generation(&self) -> u64 {
        self.generation
    }

    /// There is exactly one framebuffer per swapchain image, and every one of them
    /// was built from the current swapchain.
    pub open spec fn wf(&self) -> bool {
        self.framebuffers() == framebuffers_of(self.image_count(), self.generation())
    }

    /// The context of a freshly created swapchain of `image_count` images sized to
    /// `dimensions`, with the viewport covering the whole surface.
    pub fn new(image_count: u32, dimensions: Extent) -> (context: Self)
        ensures
            context.wf(),
            context.image_count() == image_count,
            context.extent() == dimensions,
            context.viewport() == (Viewport { dimensions }),
            context.generation() == 0,
    {
        RendererContext {
            image_count,
            extent: dimensions,
            framebuffers: create_framebuffers(image_count, 0),
            viewport: Viewport { dimensions },
            generation: 0,
        }
    }

    /// Takes over the outcome of rebuilding the swapchain at `new_dimensions`.
    ///
    /// An unsupported extent changes nothing. A new swapchain replaces the image
    /// count and the extent, advances the generation stamp, and has every
    /// framebuffer rebuilt from the new images. The viewport is never touched.
    /// Returns whether the swapchain was replaced.
    pub fn update_swapchain(&mut self, new_dimensions: Extent, outcome: SwapchainRecreation) -> (recreated: bool)
        requires
            old(self).wf(),
        ensures
            final(self).wf(),
            final(self).viewport() == old(self).viewport(),
            recreated == (outcome is Recreated),
            match outcome {
                SwapchainRecreation::Recreated { image_count } => {
                    &&& final(self).image_count() == image_count
                    &&& final(self).extent() == new_dimensions
                    &&& final(self).generation() == next_generation(old(self).generation())
                },
                SwapchainRecreation::ImageExtentNotSupported => *final(self) == *old(self),
            },
    {
        match outcome {
            SwapchainRecreation::Recreated { image_count } => {
                let generation: u64 = if self.generation == u64::MAX {
                    0
                } else {
                    self.generation + 1
                };
                self.image_count = image_count;
                self.extent = new_dimensions;
                self.generation = generation;
                self.framebuffers = create_framebuffers(image_count, generation);
                true
            },
            SwapchainRecreation::ImageExtentNotSupported => false,
        }
    }

    /// Sets the viewport dimensions. Nothing else changes: pipelines that were built
    /// for the old viewport have to be rebuilt by their owners.
    pub fn update_viewport(&mut self, new_dimensions: Extent)
        ensures
            final(self).viewport() == (Viewport { dimensions: new_dimensions }),
            final(self).image_count() == old(self).image_count(),
            final(self).extent() == old(self).extent(),
            final(self).generation() == old(self).generation(),
            final(self).framebuffers() == old(self).framebuffers(),
    {
        self.viewport = Viewport { dimensions: new_dimensions };
    }

    /// Interprets the answer to an image request: the image index with its
    /// suboptimal flag, or `None` when the caller has to try again later because the
    /// surface is out of date, the request timed out, or the index names no image
    /// of this swapchain.
    pub fn next_image(&self, acquired: Acquisition) -> (next: Option<(u32, bool)>)
        ensures
            next == match acquired {
                Acquisition::Image { index, suboptimal } => if index < self.image_count() {
                    Some((index, suboptimal))
                } else {
                    None
                },
                Acquisition::OutOfDate => None,
                Acquisition::Timeout => None,
            },
    {
        match acquired {
            Acquisition::Image { index, suboptimal } => {
                if index < self.image_count {
                    Some((index, suboptimal))
                } else {
                    None
                }
            },
            Acquisition::OutOfDate => None,
            Acquisition::Timeout => None,
        }
    }

    /// The current viewport.
    pub fn get_viewport(&self) -> (viewport: &Viewport)
        ensures
            *viewport == self.viewport(),
    {
        &self.viewport
    }

    /// The framebuffers, in image order.
    pub fn get_framebuffers(&self) -> (framebuffers: &Vec<Framebuffer>)
        ensures
            framebuffers@ == self.framebuffers(),
    {
        &self.framebuffers
    }

    /// The number of framebuffers, which is the number of swapchain images.
    pub fn get_framebuffer_count(&self) -> (count: usize)
        requires
            self.wf(),
        ensures
            count == self.image_count(),
            count == self.framebuffers().len(),
    {
        self.framebuffers.len()
    }

    /// The extent of the current swapchain images.
    pub fn get_extent(&self) -> (extent: Extent)
        ensures
            extent == self.extent(),
    {
        self.extent
    }

    /// The stamp of the current swapchain.
    pub fn get_generation(&self) -> (generation: u64)
        ensures
            generation == self.generation(),
    {
        self.generation
    }
}

/// The command buffers that a drawable holds when it has recorded its present
/// script against each of the given framebuffers.
pub open spec fn recorded_against<R: Renderer>(renderer: &R, framebuffers: Seq<Framebuffer>) -> Seq<RecordedCommands> {
    record_each(framebuffers, |framebuffer: Framebuffer| renderer.script(framebuffer))
}

/// Tells whether a drawable may be submitted against the context: its pipelines
/// were built for the current viewport, and its command buffers were recorded, from
/// its present data, against the framebuffers of the current swapchain.
pub open spec fn is_fresh<R: Renderer>(renderer: &R, render_context: &RendererContext) -> bool {
    &&& renderer.pipeline_viewport() == render_context.viewport()
    &&& renderer.command_buffers() == recorded_against(renderer, render_context.framebuffers())
}

/// What every drawable offers to the frame loop: building its pipeline for the
/// current viewport, recording one command buffer per framebuffer, and handing out
/// the command buffer of an image for submission.
pub trait Renderer: Sized {
    /// The drawable's own invariant.
    spec fn wf(&self) -> bool;

    /// The commands that the drawable records against a framebuffer, given the
    /// data it holds now.
    spec fn script(&self, framebuffer: Framebuffer) -> Seq<Command>;

    /// The cached command buffers.
    spec fn command_buffers(&self) -> Seq<RecordedCommands>;

    /// The viewport that the cached pipelines were built for.
    spec fn pipeline_viewport(&self) -> Viewport;

    /// The state of the drawable's main pipeline for the context's viewport. The
    /// drawable is not changed.
    fn create_pipeline(&self, render_context: &RendererContext) -> (pipeline: GraphicsPipeline)
        requires
            self.wf(),
        ensures
            pipeline.viewport == render_context.viewport(),
    ;

    /// Records one command buffer per current framebuffer, replacing the cache. The
    /// pipelines and the script are kept, so a second call in a row changes nothing.
    fn update_command_buffers(&mut self, render_context: &RendererContext)
        requires
            old(self).wf(),
            render_context.wf(),
        ensures
            final(self).wf(),
            final(self).pipeline_viewport() == old(self).pipeline_viewport(),
            forall|framebuffer: Framebuffer| #[trigger] final(self).script(framebuffer) == old(self).script(framebuffer),
            final(self).command_buffers() == record_each(
                render_context.framebuffers(),
                |framebuffer: Framebuffer| final(self).script(framebuffer),
            ),
    ;

    /// Rebuilds the pipelines for the context's viewport, then the command buffers.
    fn update_pipeline(&mut self, render_context: &RendererContext)
        requires
            old(self).wf(),
            render_context.wf(),
        ensures
            final(self).wf(),
            final(self).pipeline_viewport() == render_context.viewport(),
            final(self).command_buffers() == record_each(
                render_context.framebuffers(),
                |framebuffer: Framebuffer| final(self).script(framebuffer),
            ),
    ;

    /// The command buffer to execute for swapchain image `image_i`.
    fn execute_cmd_buf(&self, image_i: u32) -> (command_buffer: &CommandBuffer)
        requires
            self.wf(),
            image_i < self.command_buffers().len(),
        ensures
            command_buffer@ == self.command_buffers()[image_i as int],
    ;

    /// Tells whether the drawable may be submitted against the context as it is.
    fn is_current(&self, render_context: &RendererContext) -> (current: bool)
        requires
            self.wf(),
            render_context.wf(),
        ensures
            current == (self.pipeline_viewport() == render_context.viewport() && self.command_buffers()
                == record_each(render_context.framebuffers(), |framebuffer: Framebuffer| self.script(framebuffer))),
    ;
}

} // verus!
