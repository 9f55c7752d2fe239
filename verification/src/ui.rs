use vstd::prelude::*;
use crate::commands::lemma_record_each_by_targets;
use crate::commands::record_each;
use crate::commands::recorded;
use crate::commands::targets_match;
use crate::commands::Command;
use crate::commands::CommandBuffer;
use crate::commands::GraphicsPipeline;
use crate::commands::PipelineId;
use crate::commands::PrimitiveTopology;
use crate::commands::RecordedCommands;
use crate::commands::Transform;
use crate::commands::VertexBufferId;
use crate::render::recorded_against;
use crate::render::Framebuffer;
use crate::render::Renderer;
use crate::render::RendererContext;
use crate::render::Viewport;

verus! {

/// The number of vertices of the test triangle.
pub const UI_VERTEX_COUNT: u32 = 3;

/// The transform that leaves positions as they are: unit scale (1.0 in 32.32
/// fixed point) and no translation.
pub open spec fn identity_transform() -> Transform {
    Transform { u_scale: [0x1_0000_0000u64, 0x1_0000_0000u64], u_translate: [0i64, 0i64] }
}

/// The commands of the test widget against one framebuffer: one render pass that
/// clears to opaque blue and draws the triangle with the given transform.
pub open spec fn ui_script(framebuffer: Framebuffer, vertex_count: u32, transform: Transform) -> Seq<Command> {
    seq![
        Command::BeginRenderPass { framebuffer, clear: Some([0u8, 0u8, 255u8, 255u8]) },
        Command::BindPipelineGraphics { pipeline: PipelineId::Ui },
        Command::BindVertexBuffers { first_binding: 0, buffer: VertexBufferId::Ui },
        Command::PushConstants { offset: 0, transform },
        Command::Draw { vertex_count, instance_count: 1, first_vertex: 0, first_instance: 0 },
        Command::EndRenderPass,
    ]
}

/// A vertex of the test widget: a position in 32.32 fixed point and a colour.
#[derive(Clone, Copy, Debug, PartialEq, Eq)]
pub struct UIVertex {
    pub position: [i64; 2],
    pub color: [u8; 4],
}

/// The test triangle: red at (-0.5, -0.5), green at (0, 0.5), blue at (0.5, -0.25).
pub open spec fn triangle() -> Seq<UIVertex> {
    seq![
        UIVertex { position: [-0x8000_0000i64, -0x8000_0000i64], color: [255u8, 0u8, 0u8, 255u8] },
        UIVertex { position: [0i64, 0x8000_0000i64], color: [0u8, 255u8, 0u8, 255u8] },
        UIVertex { position: [0x8000_0000i64, -0x4000_0000i64], color: [0u8, 0u8, 255u8, 255u8] },
    ]
}

/// A single triangle that is always drawn, with a transform that does not depend
/// on the view. It exists to exercise the drawable contract.
pub struct UI {
    graphics_pipeline: GraphicsPipeline,
    command_buffers: Vec<CommandBuffer>,
    vert_buffer: Vec<UIVertex>,
    transform_push_constants: Transform,
}

impl UI {
    /// The push-constant transform of the widget.
    pub closed spec fn transform(&self) -> Transform {
        self.transform_push_constants
    }

    /// The state of the widget's pipeline.
    pub closed spec fn pipeline(&self) -> GraphicsPipeline {
        self.graphics_pipeline
    }

    /// The vertices of the widget.
    pub closed spec fn vertices(&self) -> Seq<UIVertex> {
        self.vert_buffer@
    }

    /// What the invariant says of a widget: its vertices are the test triangle and
    /// its pipeline is the widget's pipeline for the viewport it was built for.
    pub proof fn lemma_invariant(&self)
        requires
            self.wf(),
        ensures
            self.vertices() == triangle(),
            self.pipeline() == Self::ui_pipeline(self.pipeline_viewport()),
    {
    }

    /// Tells whether this widget shows what `other` shows: the same transform,
    /// vertices and pipeline.
    pub open spec fn same_content(&self, other: &UI) -> bool {
        &&& self.transform() == other.transform()
        &&& self.vertices() == other.vertices()
        &&& self.pipeline() == other.pipeline()
    }

    /// What rebuilding the pipeline for the context makes of the widget `before`:
    /// the pipeline is that of the context's viewport, the rest is as it was.
    pub open spec fn is_rebuild_of(&self, before: &UI, render_context: &RendererContext) -> bool {
        &&& self.transform() == before.transform()
        &&& self.vertices() == before.vertices()
        &&& self.pipeline() == Self::ui_pipeline(render_context.viewport())
    }

    /// The pipeline state of the widget for a viewport: a triangle list, not blended.
    pub open spec fn ui_pipeline(viewport: Viewport) -> GraphicsPipeline {
        GraphicsPipeline { topology: PrimitiveTopology::TriangleList, viewport, line_width: 1, blend_alpha: false }
    }

    /// The widget for a context: identity transform, pipeline and command buffers
    /// built for the context as it is.
    pub fn new(render_context: &RendererContext) -> (ui: Self)
        requires
            render_context.wf(),
        ensures
            ui.wf(),
            ui.transform() == identity_transform(),
            ui.vertices() == triangle(),
            ui.pipeline() == Self::ui_pipeline(render_context.viewport()),
            ui.pipeline_viewport() == render_context.viewport(),
            ui.command_buffers() == recorded_against(&ui, render_context.framebuffers()),
    {
        let transform_push_constants = Transform { u_scale: [0x1_0000_0000u64, 0x1_0000_0000u64], u_translate: [0i64, 0i64] };
        let mut vert_buffer: Vec<UIVertex> = Vec::new();
        vert_buffer.push(UIVertex { position: [-0x8000_0000, -0x8000_0000], color: [255, 0, 0, 255] });
        vert_buffer.push(UIVertex { position: [0, 0x8000_0000], color: [0, 255, 0, 255] });
        vert_buffer.push(UIVertex { position: [0x8000_0000, -0x4000_0000], color: [0, 0, 255, 255] });
        assert(vert_buffer@ =~= triangle());
        let graphics_pipeline = Self::create_ui_pipeline(render_context);
        let command_buffers = Self::create_ui_command_buffers(
            render_context,
            vert_buffer.len() as u32,
            &transform_push_constants,
        );
        let ui = UI { graphics_pipeline, command_buffers, vert_buffer, transform_push_constants };
        assert(ui.command_buffers() =~= recorded_against(&ui, render_context.framebuffers()));
        ui
    }

    /// The push-constant transform of the widget.
    pub fn get_transform(&self) -> (transform: &Transform)
        ensures
            *transform == self.transform(),
    {
        &self.transform_push_constants
    }

    /// The vertices of the widget.
    pub fn get_vertices(&self) -> (vertices: &Vec<UIVertex>)
        ensures
            vertices@ == self.vertices(),
    {
        &self.vert_buffer
    }

    /// The state of the widget's pipeline.
    pub fn get_pipeline(&self) -> (pipeline: &GraphicsPipeline)
        ensures
            *pipeline == self.pipeline(),
    {
        &self.graphics_pipeline
    }

    fn create_ui_pipeline(render_context: &RendererContext) -> (pipeline: GraphicsPipeline)
        ensures
            pipeline == Self::ui_pipeline(render_context.viewport()),
    {
        GraphicsPipeline {
            topology: PrimitiveTopology::TriangleList,
            viewport: *render_context.get_viewport(),
            line_width: 1,
            blend_alpha: false,
        }
    }

    fn create_ui_command_buffers(render_context: &RendererContext, vertex_count: u32, push_constants: &Transform) -> (command_buffers: Vec<CommandBuffer>)
        ensures
            recorded(command_buffers@) == Seq::new(
                render_context.framebuffers().len(),
                |i: int| RecordedCommands {
                    framebuffer: render_context.framebuffers()[i],
                    commands: ui_script(render_context.framebuffers()[i], vertex_count, *push_constants),
                },
            ),
    {
        let framebuffers = render_context.get_framebuffers();
        let mut command_buffers: Vec<CommandBuffer> = Vec::new();
        let mut i: usize = 0;
        while i < framebuffers.len()
            invariant
                i <= framebuffers.len(),
                command_buffers.len() == i,
                forall|j: int| 0 <= j < i ==> (#[trigger] command_buffers@[j])@ == (RecordedCommands {
                    framebuffer: framebuffers@[j],
                    commands: ui_script(framebuffers@[j], vertex_count, *push_constants),
                }),
            decreases framebuffers.len() - i,
        {
            let framebuffer = framebuffers[i];
            let mut commands: Vec<Command> = Vec::new();
            commands.push(Command::BeginRenderPass { framebuffer, clear: Some([0u8, 0u8, 255u8, 255u8]) });
            commands.push(Command::BindPipelineGraphics { pipeline: PipelineId::Ui });
            commands.push(Command::BindVertexBuffers { first_binding: 0, buffer: VertexBufferId::Ui });
            commands.push(Command::PushConstants { offset: 0, transform: *push_constants });
            commands.push(Command::Draw { vertex_count, instance_count: 1, first_vertex: 0, first_instance: 0 });
            commands.push(Command::EndRenderPass);
            assert(commands@ =~= ui_script(framebuffer, vertex_count, *push_constants));
            command_buffers.push(CommandBuffer { framebuffer, commands });
            i = i + 1;
        }
        assert(recorded(command_buffers@) =~= Seq::new(
            render_context.framebuffers().len(),
            |i: int| RecordedCommands {
                framebuffer: render_context.framebuffers()[i],
                commands: ui_script(render_context.framebuffers()[i], vertex_count, *push_constants),
            },
        ));
        command_buffers
    }
}

impl Renderer for UI {
    /// The pipeline is the widget's pipeline for some viewport, and every cached
    /// command buffer holds the widget's script for its framebuffer.
    closed spec fn wf(&self) -> bool {
        &&& self.graphics_pipeline == Self::ui_pipeline(self.graphics_pipeline.viewport)
        &&& self.vert_buffer@ == triangle()
        &&& forall|i: int| 0 <= i < self.command_buffers@.len() ==> (#[trigger] recorded(self.command_buffers@)[i]).commands
                == ui_script(recorded(self.command_buffers@)[i].framebuffer, UI_VERTEX_COUNT, self.transform_push_constants)
    }

    open spec fn script(&self, framebuffer: Framebuffer) -> Seq<Command> {
        ui_script(framebuffer, UI_VERTEX_COUNT, self.transform())
    }

    closed spec fn command_buffers(&self) -> Seq<RecordedCommands> {
        recorded(self.command_buffers@)
    }

    closed spec fn pipeline_viewport(&self) -> Viewport {
        self.graphics_pipeline.viewport
    }

    fn create_pipeline(&self, render_context: &RendererContext) -> (pipeline: GraphicsPipeline)
        ensures
            pipeline == Self::ui_pipeline(render_context.viewport()),
    {
        Self::create_ui_pipeline(render_context)
    }

    fn update_command_buffers(&mut self, render_context: &RendererContext)
        ensures
            final(self).same_content(old(self)),
    {
        self.command_buffers = Self::create_ui_command_buffers(render_context, UI_VERTEX_COUNT, &self.transform_push_constants);
        assert(self.command_buffers() =~= record_each(
            render_context.framebuffers(),
            |framebuffer: Framebuffer| self.script(framebuffer),
        ));
    }

    fn update_pipeline(&mut self, render_context: &RendererContext)
        ensures
            final(self).is_rebuild_of(old(self), render_context),
    {
        self.graphics_pipeline = self.create_pipeline(render_context);
        self.update_command_buffers(render_context);
    }

    fn execute_cmd_buf(&self, image_i: u32) -> (command_buffer: &CommandBuffer) {
        &self.command_buffers[image_i as usize]
    }

    fn is_current(&self, render_context: &RendererContext) -> (current: bool) {
        let viewport = render_context.get_viewport();
        let same_viewport = self.graphics_pipeline.viewport.dimensions.width == viewport.dimensions.width
            && self.graphics_pipeline.viewport.dimensions.height == viewport.dimensions.height;
        let same_targets = targets_match(&self.command_buffers, render_context.get_framebuffers());
        proof {
            lemma_record_each_by_targets(
                self.command_buffers(),
                render_context.framebuffers(),
                |framebuffer: Framebuffer| self.script(framebuffer),
            );
        }
        same_viewport && same_targets
    }
}

} // verus!
