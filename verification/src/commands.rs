use vstd::prelude::*;
use crate::render::Framebuffer;
use crate::render::Viewport;

verus! {

/// How consecutive vertices are assembled into primitives.
#[derive(Clone, Copy, Debug, PartialEq, Eq, Structural)]
pub enum PrimitiveTopology {
    LineList,
    LineStrip,
    TriangleList,
}

/// The fixed-function state of a graphics pipeline. The viewport is part of it, so
/// a pipeline is only good for the viewport it was built with.
#[derive(Clone, Copy, Debug, PartialEq, Eq, Structural)]
pub struct GraphicsPipeline {
    pub topology: PrimitiveTopology,
    pub viewport: Viewport,
    /// Rasterised line width in pixels.
    pub line_width: u32,
    /// Whether fragments are alpha-blended over the attachment.
    pub blend_alpha: bool,
}

/// The pipelines that the drawables own.
#[derive(Clone, Copy, Debug, PartialEq, Eq, Structural)]
pub enum PipelineId {
    PageGrid,
    PageSignal,
    Ui,
    Text,
}

/// The vertex buffers that the drawables own.
#[derive(Clone, Copy, Debug, PartialEq, Eq, Structural)]
pub enum VertexBufferId {
    PageGrid,
    PageSignal,
    Ui,
    Text,
}

/// The descriptor sets of the text overlay.
#[derive(Clone, Copy, Debug, PartialEq, Eq, Structural)]
pub enum DescriptorSetId {
    TextMvp,
    TextFont,
}

/// The transform handed to the vertex stage with every draw: a scale and a
/// translation per axis, as 32.32 fixed-point numbers (the scale unsigned).
#[derive(Clone, Copy, Debug, PartialEq, Eq)]
pub struct Transform {
    pub u_scale: [u64; 2],
    pub u_translate: [i64; 2],
}

/// One recorded command.
#[derive(Clone, Copy, Debug, PartialEq, Eq)]
pub enum Command {
    /// Begins the render pass on a framebuffer, clearing the colour attachment to
    /// the given RGBA value, or leaving its contents alone.
    BeginRenderPass { framebuffer: Framebuffer, clear: Option<[u8; 4]> },
    /// Binds two descriptor sets starting at `first_set`.
    BindDescriptorSets { first_set: u32, sets: [DescriptorSetId; 2] },
    BindPipelineGraphics { pipeline: PipelineId },
    BindVertexBuffers { first_binding: u32, buffer: VertexBufferId },
    PushConstants { offset: u32, transform: Transform },
    Draw { vertex_count: u32, instance_count: u32, first_vertex: u32, first_instance: u32 },
    EndRenderPass,
}

/// A command buffer: the commands recorded against one framebuffer.
#[derive(Debug)]
pub struct CommandBuffer {
    pub framebuffer: Framebuffer,
    pub commands: Vec<Command>,
}

/// What a command buffer holds, as mathematical values.
pub struct RecordedCommands {
    pub framebuffer: Framebuffer,
    pub commands: Seq<Command>,
}

impl View for CommandBuffer {
    type V = RecordedCommands;

    open spec fn view(&self) -> RecordedCommands {
        RecordedCommands { framebuffer: self.framebuffer, commands: self.commands@ }
    }
}

/// The contents of a list of command buffers.
pub open spec fn recorded(command_buffers: Seq<CommandBuffer>) -> Seq<RecordedCommands> {
    Seq::new(command_buffers.len(), |i: int| command_buffers[i]@)
}

/// The framebuffers that a list of command buffers was recorded against, in order.
pub open spec fn targets(command_buffers: Seq<RecordedCommands>) -> Seq<Framebuffer> {
    Seq::new(command_buffers.len(), |i: int| command_buffers[i].framebuffer)
}

/// The command buffers that result from recording `script` against each of the
/// given framebuffers, in order.
pub open spec fn record_each(framebuffers: Seq<Framebuffer>, script: spec_fn(Framebuffer) -> Seq<Command>) -> Seq<RecordedCommands> {
    Seq::new(
        framebuffers.len(),
        |i: int| RecordedCommands { framebuffer: framebuffers[i], commands: script(framebuffers[i]) },
    )
}

/// Command buffers that each hold `script` of their own framebuffer are the result
/// of recording `script` against given framebuffers exactly when those are their
/// targets.
pub proof fn lemma_record_each_by_targets(
    command_buffers: Seq<RecordedCommands>,
    framebuffers: Seq<Framebuffer>,
    script: spec_fn(Framebuffer) -> Seq<Command>,
)
    requires
        forall|i: int| 0 <= i < command_buffers.len() ==> (#[trigger] command_buffers[i]).commands == script(
            command_buffers[i].framebuffer,
        ),
    ensures
        (command_buffers == record_each(framebuffers, script)) <==> (targets(command_buffers) == framebuffers),
{
    if targets(command_buffers) == framebuffers {
        assert forall|i: int| 0 <= i < command_buffers.len() implies command_buffers[i] == record_each(framebuffers, script)[i] by {
            assert(targets(command_buffers)[i] == framebuffers[i]);
        }
        assert(command_buffers =~= record_each(framebuffers, script));
    }
    if command_buffers == record_each(framebuffers, script) {
        assert(targets(command_buffers) =~= framebuffers);
    }
}

/// Tells whether a list of command buffers targets exactly the given framebuffers,
/// one each and in order.
pub fn targets_match(command_buffers: &Vec<CommandBuffer>, framebuffers: &Vec<Framebuffer>) -> (same: bool)
    ensures
        same == (targets(recorded(command_buffers@)) == framebuffers@),
{
    if command_buffers.len() != framebuffers.len() {
        assert(targets(recorded(command_buffers@)).len() != framebuffers@.len());
        return false;
    }
    let mut i: usize = 0;
    while i < command_buffers.len()
        invariant
            i <= command_buffers.len(),
            command_buffers.len() == framebuffers.len(),
            forall|j: int| 0 <= j < i ==> targets(recorded(command_buffers@))[j] == framebuffers@[j],
        decreases command_buffers.len() - i,
    {
        let target = command_buffers[i].framebuffer;
        let framebuffer = framebuffers[i];
        if target.image != framebuffer.image || target.generation != framebuffer.generation {
            assert(targets(recorded(command_buffers@))[i as int] != framebuffers@[i as int]);
            return false;
        }
        i = i + 1;
    }
    assert(targets(recorded(command_buffers@)) =~= framebuffers@);
    true
}

} // verus!
