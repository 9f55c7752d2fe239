use vstd::prelude::*;
use crate::render::is_fresh;
use crate::render::next_generation;
use crate::render::recorded_against;
use crate::render::Acquisition;
use crate::render::Extent;
use crate::render::Framebuffer;
use crate::render::Renderer;
use crate::render::RendererContext;
use crate::render::SwapchainRecreation;
use crate::render::Viewport;

verus! {

/// The fence of one swapchain image: none, one that the GPU has yet to signal, or
/// one that has been waited for.
#[derive(Clone, Copy, Debug, PartialEq, Eq, Structural)]
pub enum FrameSlot {
    Empty,
    InFlight,
    Completed,
}

/// How handing a frame to the queue ended.
#[derive(Clone, Copy, Debug, PartialEq, Eq, Structural)]
pub enum FlushOutcome {
    /// The work was queued and its fence obtained.
    Flushed,
    /// The swapchain was out of date; nothing was queued.
    OutOfDate,
    /// Queueing failed for another reason; the frame is dropped.
    Failed,
}

/// What has to be rebuilt on the GPU after the swapchain was dealt with.
#[derive(Clone, Copy, Debug, PartialEq, Eq, Structural)]
pub enum Rebuild {
    /// The swapchain stays as it was.
    Nothing,
    /// The command buffers of every drawable.
    CommandBuffers,
    /// The pipelines of every drawable, and then their command buffers.
    Pipelines,
}

/// What to do with an acquired image.
#[derive(Clone, Copy, Debug, PartialEq, Eq, Structural)]
pub enum FramePlan {
    /// Draw nothing in this iteration.
    Skip,
    /// Draw to image `image_i`: first wait for the fence of its slot if `wait` is
    /// set, then submit after the fence of slot `after`, or at once if there is none.
    Submit { image_i: u32, wait: bool, after: Option<u32> },
}

/// The number of slots whose fence the GPU has yet to signal.
pub open spec fn in_flight(slots: Seq<FrameSlot>) -> nat
    decreases slots.len(),
{
    if slots.len() == 0 {
        0
    } else {
        in_flight(slots.drop_last()) + if slots.last() is InFlight { 1nat } else { 0nat }
    }
}

/// The slots after a swapchain of `count` images replaced the old one: the slots of
/// the images that still exist are kept, new images get empty slots.
pub open spec fn resized_slots(slots: Seq<FrameSlot>, count: u32) -> Seq<FrameSlot> {
    Seq::new(count as nat, |i: int| if i < slots.len() { slots[i] } else { FrameSlot::Empty })
}

/// The slots once image `image_i` is planned for drawing: a fence in flight in its
/// slot has been waited for.
pub open spec fn planned_slots(slots: Seq<FrameSlot>, image_i: int) -> Seq<FrameSlot> {
    if slots[image_i] is InFlight {
        slots.update(image_i, FrameSlot::Completed)
    } else {
        slots
    }
}

/// The slots once the submission to image `image_i` ended: its slot holds the new
/// fence if the work was queued, and none otherwise.
pub open spec fn submitted_slots(slots: Seq<FrameSlot>, image_i: int, outcome: FlushOutcome) -> Seq<FrameSlot> {
    slots.update(
        image_i,
        if outcome is Flushed {
            FrameSlot::InFlight
        } else {
            FrameSlot::Empty
        },
    )
}

/// The slot that a submission depends on: the one of the previous image, if it
/// holds a fence.
pub open spec fn dependency(slots: Seq<FrameSlot>, previous: u32) -> Option<u32> {
    if previous < slots.len() && !(slots[previous as int] is Empty) {
        Some(previous)
    } else {
        None
    }
}

/// Every drawable of the list satisfies its own invariant.
pub open spec fn all_wf<R: Renderer>(drawables: Seq<R>) -> bool {
    forall|i: int| 0 <= i < drawables.len() ==> (#[trigger] drawables[i]).wf()
}

/// Every drawable of the list may be submitted against the context.
pub open spec fn all_fresh<R: Renderer>(drawables: Seq<R>, render_context: &RendererContext) -> bool {
    forall|i: int| 0 <= i < drawables.len() ==> is_fresh(&#[trigger] drawables[i], render_context)
}

/// Tells whether `after` is `before` with every drawable rebuilt for the context:
/// its command buffers recorded against the context's framebuffers, and its
/// pipelines either rebuilt for the context's viewport or left as they were, and
/// then its script as well.
pub open spec fn all_rebuilt<R: Renderer>(before: Seq<R>, after: Seq<R>, render_context: &RendererContext, pipelines: bool) -> bool {
    &&& after.len() == before.len()
    &&& forall|i: int|
        0 <= i < after.len() ==> {
            &&& (#[trigger] after[i]).wf()
            &&& after[i].command_buffers() == recorded_against(&after[i], render_context.framebuffers())
            &&& after[i].pipeline_viewport() == if pipelines {
                render_context.viewport()
            } else {
                before[i].pipeline_viewport()
            }
            &&& !pipelines ==> forall|framebuffer: Framebuffer| #[trigger]
                after[i].script(framebuffer) == before[i].script(framebuffer)
        }
}

/// Tells whether every drawable of the list may be submitted against the context.
pub fn all_current<R: Renderer>(drawables: &Vec<R>, render_context: &RendererContext) -> (current: bool)
    requires
        all_wf(drawables@),
        render_context.wf(),
    ensures
        current == all_fresh(drawables@, render_context),
{
    let mut i: usize = 0;
    while i < drawables.len()
        invariant
            i <= drawables.len(),
            all_wf(drawables@),
            render_context.wf(),
            forall|j: int| 0 <= j < i ==> is_fresh(&#[trigger] drawables@[j], render_context),
        decreases drawables.len() - i,
    {
        assert(drawables@[i as int].wf());
        if !drawables[i].is_current(render_context) {
            assert(!is_fresh(&drawables@[i as int], render_context));
            return false;
        }
        i = i + 1;
    }
    true
}

/// The state of the frame loop between iterations: the two invalidation flags, one
/// fence slot per swapchain image, the image of the previous submission, and the
/// image of a submission that was planned and not yet reported.
pub struct FrameScheduler {
    window_resized: bool,
    recreate_swapchain: bool,
    fences: Vec<FrameSlot>,
    previous_fence_i: u32,
    submitting: Option<u32>,
}

impl FrameScheduler {
    /// Whether the window was resized since the swapchain was last rebuilt.
    pub closed spec fn window_resized(&self) -> bool {
        self.window_resized
    }

    /// Whether the swapchain has to be rebuilt before its next use.
    pub closed spec fn recreate_swapchain(&self) -> bool {
        self.recreate_swapchain
    }

    /// The fence slots, by image index.
    pub closed spec fn slots(&self) -> Seq<FrameSlot> {
        self.fences@
    }

    /// The image of the previous submission.
    pub closed spec fn previous(&self) -> u32 {
        self.previous_fence_i
    }

    /// The image of the planned submission, if one is under way.
    pub closed spec fn submitting(&self) -> Option<u32> {
        self.submitting
    }

    /// A planned submission targets an existing slot whose fence, if any, has been
    /// waited for.
    pub open spec fn wf(&self) -> bool {
        &&& self.slots().len() <= u32::MAX
        &&& match self.submitting() {
            Some(image_i) => image_i < self.slots().len() && !(self.slots()[image_i as int] is InFlight),
            None => true,
        }
    }

    /// The scheduler at startup: one empty slot per swapchain image, nothing pending.
    pub fn new(frames_in_flight: u32) -> (scheduler: Self)
        ensures
            scheduler.wf(),
            scheduler.slots() == Seq::new(frames_in_flight as nat, |i: int| FrameSlot::Empty),
            !scheduler.window_resized(),
            !scheduler.recreate_swapchain(),
            scheduler.previous() == 0,
            scheduler.submitting() is None,
    {
        let mut fences: Vec<FrameSlot> = Vec::new();
        let mut i: u32 = 0;
        while i < frames_in_flight
            invariant
                i <= frames_in_flight,
                fences@ == Seq::new(i as nat, |j: int| FrameSlot::Empty),
            decreases frames_in_flight - i,
        {
            fences.push(FrameSlot::Empty);
            i = i + 1;
            assert(fences@ =~= Seq::new(i as nat, |j: int| FrameSlot::Empty));
        }
        FrameScheduler { window_resized: false, recreate_swapchain: false, fences, previous_fence_i: 0, submitting: None }
    }

    /// Notes that the window was resized.
    pub fn resized(&mut self)
        ensures
            final(self).window_resized(),
            final(self).recreate_swapchain() == old(self).recreate_swapchain(),
            final(self).slots() == old(self).slots(),
            final(self).previous() == old(self).previous(),
            final(self).submitting() == old(self).submitting(),
    {
        self.window_resized = true;
    }

    /// Tells whether the swapchain has to be rebuilt before the next image is
    /// acquired: after a resize, and after the swapchain was found out of date or
    /// suboptimal.
    pub fn needs_recreation(&self) -> (needed: bool)
        ensures
            needed == (self.window_resized() || self.recreate_swapchain()),
    {
        self.window_resized || self.recreate_swapchain
    }

    /// Whether the window was resized since the swapchain was last rebuilt.
    pub fn is_window_resized(&self) -> (resized: bool)
        ensures
            resized == self.window_resized(),
    {
        self.window_resized
    }

    /// The image of the previous submission.
    pub fn get_previous(&self) -> (previous: u32)
        ensures
            previous == self.previous(),
    {
        self.previous_fence_i
    }

    /// The image of the planned submission, if one is under way.
    pub fn get_submitting(&self) -> (submitting: Option<u32>)
        ensures
            submitting == self.submitting(),
    {
        self.submitting
    }

    /// The fence slots, by image index.
    pub fn get_slots(&self) -> (slots: &Vec<FrameSlot>)
        ensures
            slots@ == self.slots(),
    {
        &self.fences
    }

    /// The number of slots whose fence the GPU has yet to signal.
    pub fn frames_in_flight(&self) -> (count: usize)
        ensures
            count == in_flight(self.slots()),
    {
        let mut count: usize = 0;
        let mut i: usize = 0;
        while i < self.fences.len()
            invariant
                i <= self.fences.len(),
                count == in_flight(self.fences@.take(i as int)),
                count <= i,
            decreases self.fences.len() - i,
        {
            assert(self.fences@.take(i + 1).drop_last() =~= self.fences@.take(i as int));
            if self.fences[i] == FrameSlot::InFlight {
                count = count + 1;
            }
            i = i + 1;
        }
        assert(self.fences@.take(i as int) =~= self.fences@);
        count
    }

    fn resize_slots(&mut self, count: u32)
        ensures
            final(self).fences@ == resized_slots(old(self).fences@, count),
            final(self).window_resized == old(self).window_resized,
            final(self).recreate_swapchain == old(self).recreate_swapchain,
            final(self).previous_fence_i == old(self).previous_fence_i,
            final(self).submitting == old(self).submitting,
    {
        let mut fences: Vec<FrameSlot> = Vec::new();
        let mut i: u32 = 0;
        while i < count
            invariant
                i <= count,
                fences@ == resized_slots(self.fences@, i),
            decreases count - i,
        {
            let slot = if (i as usize) < self.fences.len() {
                self.fences[i as usize]
            } else {
                FrameSlot::Empty
            };
            fences.push(slot);
            i = i + 1;
            assert(fences@ =~= resized_slots(self.fences@, i));
        }
        self.fences = fences;
    }

    /// Takes over the outcome of rebuilding the swapchain at `new_dimensions`.
    ///
    /// An unsupported extent changes nothing: the flags stay set and the rebuild is
    /// due again in the next iteration. A new swapchain is taken into the context;
    /// after a resize the viewport follows and every drawable rebuilds its
    /// pipelines and command buffers, otherwise every drawable records its command
    /// buffers anew. Then both flags are cleared, the slots follow the new image
    /// count, and a planned submission is forgotten.
    pub fn recreate<R: Renderer>(
        &mut self,
        render_context: &mut RendererContext,
        drawables: &mut Vec<R>,
        new_dimensions: Extent,
        outcome: SwapchainRecreation,
    ) -> (rebuild: Rebuild)
        requires
            old(self).wf(),
            old(render_context).wf(),
            all_wf(old(drawables)@),
        ensures
            final(self).wf(),
            final(render_context).wf(),
            all_wf(final(drawables)@),
            match outcome {
                SwapchainRecreation::ImageExtentNotSupported => {
                    &&& rebuild == Rebuild::Nothing
                    &&& *final(self) == *old(self)
                    &&& *final(render_context) == *old(render_context)
                    &&& *final(drawables) == *old(drawables)
                },
                SwapchainRecreation::Recreated { image_count } => {
                    &&& rebuild == if old(self).window_resized() {
                        Rebuild::Pipelines
                    } else {
                        Rebuild::CommandBuffers
                    }
                    &&& !final(self).window_resized()
                    &&& !final(self).recreate_swapchain()
                    &&& final(self).slots() == resized_slots(old(self).slots(), image_count)
                    &&& final(self).previous() == if old(self).previous() < image_count {
                        old(self).previous()
                    } else {
                        0
                    }
                    &&& final(self).submitting() is None
                    &&& final(render_context).image_count() == image_count
                    &&& final(render_context).extent() == new_dimensions
                    &&& final(render_context).generation() == next_generation(old(render_context).generation())
                    &&& final(render_context).viewport() == if old(self).window_resized() {
                        Viewport { dimensions: new_dimensions }
                    } else {
                        old(render_context).viewport()
                    }
                    &&& all_rebuilt(
                        old(drawables)@,
                        final(drawables)@,
                        final(render_context),
                        old(self).window_resized(),
                    )
                },
            },
    {
        if !render_context.update_swapchain(new_dimensions, outcome) {
            return Rebuild::Nothing;
        }
        let pipelines = self.window_resized;
        if pipelines {
            render_context.update_viewport(new_dimensions);
        }
        let mut i: usize = 0;
        while i < drawables.len()
            invariant
                i <= drawables.len(),
                render_context.wf(),
                drawables@.len() == old(drawables)@.len(),
                all_wf(drawables@),
                forall|j: int| i <= j < drawables@.len() ==> #[trigger] drawables@[j] == old(drawables)@[j],
                forall|j: int|
                    0 <= j < i ==> {
                        &&& (#[trigger] drawables@[j]).command_buffers() == recorded_against(
                            &drawables@[j],
                            render_context.framebuffers(),
                        )
                        &&& drawables@[j].pipeline_viewport() == if pipelines {
                            render_context.viewport()
                        } else {
                            old(drawables)@[j].pipeline_viewport()
                        }
                        &&& !pipelines ==> forall|framebuffer: Framebuffer| #[trigger]
                            drawables@[j].script(framebuffer) == old(drawables)@[j].script(framebuffer)
                    },
            decreases drawables.len() - i,
        {
            assert(drawables@[i as int].wf());
            if pipelines {
                drawables[i].update_pipeline(render_context);
            } else {
                drawables[i].update_command_buffers(render_context);
            }
            i = i + 1;
        }
        self.window_resized = false;
        self.recreate_swapchain = false;
        let count = render_context.get_framebuffer_count();
        self.resize_slots(count as u32);
        if self.previous_fence_i as usize >= count {
            self.previous_fence_i = 0;
        }
        self.submitting = None;
        if pipelines {
            Rebuild::Pipelines
        } else {
            Rebuild::CommandBuffers
        }
    }

    /// Decides what to do with the answer to an image request.
    ///
    /// The frame is skipped when the request timed out. It is skipped, and a
    /// rebuild of the swapchain asked for, when the surface is out of date or the
    /// answer names no image with a slot. It is also skipped when a drawable is
    /// stale, that is when its pipelines or command buffers were built for another
    /// viewport or swapchain than the context's; then a full rebuild is asked for.
    /// Otherwise the image is drawn to, even if it is suboptimal, which only asks
    /// for a rebuild before the next frame. The plan says whether the fence of the
    /// image's slot has to be waited for, which is the case when it is in flight,
    /// and whose fence the submission follows.
    pub fn plan_frame<R: Renderer>(&mut self, render_context: &RendererContext, drawables: &Vec<R>, acquired: Acquisition) -> (plan: FramePlan)
        requires
            old(self).wf(),
            render_context.wf(),
            all_wf(drawables@),
        ensures
            final(self).wf(),
            final(self).previous() == old(self).previous(),
            final(self).slots().len() == old(self).slots().len(),
            plan is Submit ==> all_fresh(drawables@, render_context),
            match acquired {
                Acquisition::Image { index, suboptimal } if index < render_context.image_count() && index
                    < old(self).slots().len() => {
                    if all_fresh(drawables@, render_context) {
                        &&& plan == (FramePlan::Submit {
                            image_i: index,
                            wait: old(self).slots()[index as int] is InFlight,
                            after: dependency(final(self).slots(), old(self).previous()),
                        })
                        &&& final(self).slots() == planned_slots(old(self).slots(), index as int)
                        &&& final(self).submitting() == Some(index)
                        &&& final(self).window_resized() == old(self).window_resized()
                        &&& final(self).recreate_swapchain() == (old(self).recreate_swapchain() || suboptimal)
                    } else {
                        &&& plan == FramePlan::Skip
                        &&& final(self).slots() == old(self).slots()
                        &&& final(self).submitting() is None
                        &&& final(self).window_resized()
                        &&& final(self).recreate_swapchain() == (old(self).recreate_swapchain() || suboptimal)
                    }
                },
                Acquisition::Timeout => {
                    &&& plan == FramePlan::Skip
                    &&& final(self).slots() == old(self).slots()
                    &&& final(self).submitting() is None
                    &&& final(self).window_resized() == old(self).window_resized()
                    &&& final(self).recreate_swapchain() == old(self).recreate_swapchain()
                },
                _ => {
                    &&& plan == FramePlan::Skip
                    &&& final(self).slots() == old(self).slots()
                    &&& final(self).submitting() is None
                    &&& final(self).window_resized() == old(self).window_resized()
                    &&& final(self).recreate_swapchain()
                },
            },
    {
        self.submitting = None;
        if let Acquisition::Timeout = acquired {
            return FramePlan::Skip;
        }
        let (image_i, suboptimal) = match render_context.next_image(acquired) {
            Some(image) => image,
            None => {
                self.recreate_swapchain = true;
                return FramePlan::Skip;
            },
        };
        if image_i as usize >= self.fences.len() {
            self.recreate_swapchain = true;
            return FramePlan::Skip;
        }
        if suboptimal {
            self.recreate_swapchain = true;
        }
        if !all_current(drawables, render_context) {
            self.window_resized = true;
            return FramePlan::Skip;
        }
        let wait = self.fences[image_i as usize] == FrameSlot::InFlight;
        if wait {
            self.fences.set(image_i as usize, FrameSlot::Completed);
        }
        let after = if (self.previous_fence_i as usize) < self.fences.len() && self.fences[self.previous_fence_i as usize]
            != FrameSlot::Empty {
            Some(self.previous_fence_i)
        } else {
            None
        };
        self.submitting = Some(image_i);
        FramePlan::Submit { image_i, wait, after }
    }

    /// Records how the planned submission ended. The slot of its image takes the
    /// new fence if the work was queued and is emptied otherwise; an out-of-date
    /// swapchain asks for a rebuild; the image becomes the previous one. Without a
    /// planned submission nothing changes. Returns whether there was one.
    pub fn submitted(&mut self, outcome: FlushOutcome) -> (recorded: bool)
        requires
            old(self).wf(),
        ensures
            final(self).wf(),
            recorded == (old(self).submitting() is Some),
            final(self).submitting() is None,
            final(self).window_resized() == old(self).window_resized(),
            match old(self).submitting() {
                Some(image_i) => {
                    &&& final(self).slots() == submitted_slots(old(self).slots(), image_i as int, outcome)
                    &&& final(self).previous() == image_i
                    &&& final(self).recreate_swapchain() == (old(self).recreate_swapchain() || outcome is OutOfDate)
                },
                None => {
                    &&& final(self).slots() == old(self).slots()
                    &&& final(self).previous() == old(self).previous()
                    &&& final(self).recreate_swapchain() == old(self).recreate_swapchain()
                },
            },
    {
        let image_i = match self.submitting {
            Some(image_i) => image_i,
            None => {
                return false;
            },
        };
        let slot = match outcome {
            FlushOutcome::Flushed => FrameSlot::InFlight,
            FlushOutcome::OutOfDate => {
                self.recreate_swapchain = true;
                FrameSlot::Empty
            },
            FlushOutcome::Failed => FrameSlot::Empty,
        };
        self.fences.set(image_i as usize, slot);
        self.previous_fence_i = image_i;
        self.submitting = None;
        true
    }
}

/// Replacing one slot changes the number of frames in flight by what the slot held
/// and what it holds now.
pub proof fn lemma_in_flight_update(slots: Seq<FrameSlot>, i: int, slot: FrameSlot)
    requires
        0 <= i < slots.len(),
    ensures
        in_flight(slots.update(i, slot)) + (if slots[i] is InFlight { 1nat } else { 0nat }) == in_flight(slots) + (if slot is InFlight {
            1nat
        } else {
            0nat
        }),
    decreases slots.len(),
{
    let updated = slots.update(i, slot);
    if i == slots.len() - 1 {
        assert(updated.drop_last() =~= slots.drop_last());
    } else {
        assert(updated.drop_last() =~= slots.drop_last().update(i, slot));
        lemma_in_flight_update(slots.drop_last(), i, slot);
    }
}

/// However the frames were scheduled, no more of them are in flight than the
/// swapchain has images.
pub proof fn lemma_in_flight_bounded(slots: Seq<FrameSlot>)
    ensures
        in_flight(slots) <= slots.len(),
    decreases slots.len(),
{
    if slots.len() > 0 {
        lemma_in_flight_bounded(slots.drop_last());
    }
}

/// One frame, from plan to flush: the slot of its image is waited for before it is
/// reused, so the frame that was in flight there has left flight before the new one
/// enters, and the number of frames in flight stays within the number of images.
pub proof fn lemma_frame_waits_before_reuse(slots: Seq<FrameSlot>, image_i: int)
    requires
        0 <= image_i < slots.len(),
    ensures
        !(planned_slots(slots, image_i)[image_i] is InFlight),
        in_flight(planned_slots(slots, image_i)) + (if slots[image_i] is InFlight { 1nat } else { 0nat }) == in_flight(slots),
        in_flight(submitted_slots(planned_slots(slots, image_i), image_i, FlushOutcome::Flushed)) == in_flight(
            planned_slots(slots, image_i),
        ) + 1,
        in_flight(submitted_slots(planned_slots(slots, image_i), image_i, FlushOutcome::Flushed)) <= slots.len(),
{
    let planned = planned_slots(slots, image_i);
    if slots[image_i] is InFlight {
        lemma_in_flight_update(slots, image_i, FrameSlot::Completed);
    }
    lemma_in_flight_update(planned, image_i, FrameSlot::InFlight);
    lemma_in_flight_bounded(submitted_slots(planned, image_i, FlushOutcome::Flushed));
}

} // verus!
