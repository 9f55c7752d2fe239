use vstd::prelude::*;
use crate::commands::record_each;
use crate::commands::Command;
use crate::commands::CommandBuffer;
use crate::commands::GraphicsPipeline;
use crate::commands::RecordedCommands;
use crate::page::page_pipeline;
use crate::page::Page;
use crate::render::Framebuffer;
use crate::render::Renderer;
use crate::render::RendererContext;
use crate::render::Viewport;
use crate::text::text_pipeline;
use crate::text::TextRenderer;
use crate::ui::UI;

verus! {

/// Any of the drawables of the viewer, so that the frame loop can treat a list of
/// them alike.
pub enum Drawable {
    Page(Page),
    UITestWidget(UI),
    TextOverlay(TextRenderer),
}

impl Drawable {
    /// Tells whether this drawable is of the kind of `other` and shows what it shows.
    pub open spec fn same_content(&self, other: &Drawable) -> bool {
        match (*self, *other) {
            (Drawable::Page(page), Drawable::Page(before)) => page.same_content(&before),
            (Drawable::UITestWidget(ui), Drawable::UITestWidget(before)) => ui.same_content(&before),
            (Drawable::TextOverlay(overlay), Drawable::TextOverlay(before)) => overlay.same_content(&before),
            _ => false,
        }
    }

    /// What rebuilding the pipelines for the context makes of the drawable `before`.
    pub open spec fn is_rebuild_of(&self, before: &Drawable, render_context: &RendererContext) -> bool {
        match (*self, *before) {
            (Drawable::Page(page), Drawable::Page(before)) => page.is_rebuild_of(&before, render_context),
            (Drawable::UITestWidget(ui), Drawable::UITestWidget(before)) => ui.is_rebuild_of(&before, render_context),
            (Drawable::TextOverlay(overlay), Drawable::TextOverlay(before)) => overlay.is_rebuild_of(
                &before,
                render_context,
            ),
            _ => false,
        }
    }
}

impl Renderer for Drawable {
    open spec fn wf(&self) -> bool {
        match self {
            Drawable::Page(page) => page.wf(),
            Drawable::UITestWidget(ui) => ui.wf(),
            Drawable::TextOverlay(overlay) => overlay.wf(),
        }
    }

    open spec fn script(&self, framebuffer: Framebuffer) -> Seq<Command> {
        match self {
            Drawable::Page(page) => page.script(framebuffer),
            Drawable::UITestWidget(ui) => ui.script(framebuffer),
            Drawable::TextOverlay(overlay) => overlay.script(framebuffer),
        }
    }

    open spec fn command_buffers(&self) -> Seq<RecordedCommands> {
        match self {
            Drawable::Page(page) => page.command_buffers(),
            Drawable::UITestWidget(ui) => ui.command_buffers(),
            Drawable::TextOverlay(overlay) => overlay.command_buffers(),
        }
    }

    open spec fn pipeline_viewport(&self) -> Viewport {
        match self {
            Drawable::Page(page) => page.pipeline_viewport(),
            Drawable::UITestWidget(ui) => ui.pipeline_viewport(),
            Drawable::TextOverlay(overlay) => overlay.pipeline_viewport(),
        }
    }

    fn create_pipeline(&self, render_context: &RendererContext) -> (pipeline: GraphicsPipeline)
        ensures
            pipeline == match self {
                Drawable::Page(_) => page_pipeline(render_context.viewport()),
                Drawable::UITestWidget(_) => UI::ui_pipeline(render_context.viewport()),
                Drawable::TextOverlay(_) => text_pipeline(render_context.viewport()),
            },
    {
        match self {
            Drawable::Page(page) => page.create_pipeline(render_context),
            Drawable::UITestWidget(ui) => ui.create_pipeline(render_context),
            Drawable::TextOverlay(overlay) => overlay.create_pipeline(render_context),
        }
    }

    fn update_command_buffers(&mut self, render_context: &RendererContext)
        ensures
            final(self).same_content(old(self)),
    {
        match self {
            Drawable::Page(page) => page.update_command_buffers(render_context),
            Drawable::UITestWidget(ui) => ui.update_command_buffers(render_context),
            Drawable::TextOverlay(overlay) => overlay.update_command_buffers(render_context),
        }
    }

    fn update_pipeline(&mut self, render_context: &RendererContext)
        ensures
            final(self).is_rebuild_of(old(self), render_context),
    {
        match self {
            Drawable::Page(page) => page.update_pipeline(render_context),
            Drawable::UITestWidget(ui) => ui.update_pipeline(render_context),
            Drawable::TextOverlay(overlay) => overlay.update_pipeline(render_context),
        }
    }

    fn execute_cmd_buf(&self, image_i: u32) -> (command_buffer: &CommandBuffer) {
        match self {
            Drawable::Page(page) => page.execute_cmd_buf(image_i),
            Drawable::UITestWidget(ui) => ui.execute_cmd_buf(image_i),
            Drawable::TextOverlay(overlay) => overlay.execute_cmd_buf(image_i),
        }
    }

    fn is_current(&self, render_context: &RendererContext) -> (current: bool) {
        let ghost own = record_each(
            render_context.framebuffers(),
            |framebuffer: Framebuffer| self.script(framebuffer),
        );
        match self {
            Drawable::Page(page) => {
                assert(own =~= record_each(
                    render_context.framebuffers(),
                    |framebuffer: Framebuffer| page.script(framebuffer),
                ));
                page.is_current(render_context)
            },
            Drawable::UITestWidget(ui) => {
                assert(own =~= record_each(
                    render_context.framebuffers(),
                    |framebuffer: Framebuffer| ui.script(framebuffer),
                ));
                ui.is_current(render_context)
            },
            Drawable::TextOverlay(overlay) => {
                assert(own =~= record_each(
                    render_context.framebuffers(),
                    |framebuffer: Framebuffer| overlay.script(framebuffer),
                ));
                overlay.is_current(render_context)
            },
        }
    }
}

} // verus!
