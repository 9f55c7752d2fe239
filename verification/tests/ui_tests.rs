use pageview::commands::Command;
use pageview::commands::PipelineId;
use pageview::commands::PrimitiveTopology;
use pageview::commands::Transform;
use pageview::commands::VertexBufferId;
use pageview::page::ONE;
use pageview::render::Extent;
use pageview::render::Framebuffer;
use pageview::render::Renderer;
use pageview::render::RendererContext;
use pageview::render::SwapchainRecreation;
use pageview::render::Viewport;
use pageview::ui::UIVertex;
use pageview::ui::UI;
use pageview::ui::UI_VERTEX_COUNT;

fn context() -> RendererContext {
    RendererContext::new(2, Extent { width: 800, height: 600 })
}

#[test]
fn ui_has_the_identity_transform() {
    let ui = UI::new(&context());
    assert_eq!(*ui.get_transform(), Transform { u_scale: [ONE, ONE], u_translate: [0, 0] });
    assert_eq!(UI_VERTEX_COUNT, 3);
}

#[test]
fn ui_pipeline_is_a_triangle_list_for_the_viewport() {
    let context = context();
    let ui = UI::new(&context);
    let pipeline = ui.create_pipeline(&context);
    assert_eq!(pipeline, *ui.get_pipeline());
    assert_eq!(pipeline.topology, PrimitiveTopology::TriangleList);
    assert_eq!(pipeline.viewport, Viewport { dimensions: Extent { width: 800, height: 600 } });
    assert!(!pipeline.blend_alpha);
}

#[test]
fn ui_records_one_triangle_per_framebuffer() {
    let context = context();
    let ui = UI::new(&context);
    assert!(ui.is_current(&context));
    for image_i in 0..2u32 {
        let framebuffer = Framebuffer { image: image_i, generation: 0 };
        assert_eq!(ui.execute_cmd_buf(image_i).framebuffer, framebuffer);
        assert_eq!(
            ui.execute_cmd_buf(image_i).commands,
            vec![
                Command::BeginRenderPass { framebuffer, clear: Some([0, 0, 255, 255]) },
                Command::BindPipelineGraphics { pipeline: PipelineId::Ui },
                Command::BindVertexBuffers { first_binding: 0, buffer: VertexBufferId::Ui },
                Command::PushConstants { offset: 0, transform: Transform { u_scale: [ONE, ONE], u_translate: [0, 0] } },
                Command::Draw { vertex_count: 3, instance_count: 1, first_vertex: 0, first_instance: 0 },
                Command::EndRenderPass,
            ]
        );
    }
}

#[test]
fn ui_follows_swapchain_and_viewport() {
    let mut context = context();
    let mut ui = UI::new(&context);
    context.update_swapchain(Extent { width: 640, height: 480 }, SwapchainRecreation::Recreated { image_count: 3 });
    assert!(!ui.is_current(&context));
    ui.update_command_buffers(&context);
    assert!(ui.is_current(&context));
    assert_eq!(ui.execute_cmd_buf(2).framebuffer, Framebuffer { image: 2, generation: 1 });
    context.update_viewport(Extent { width: 640, height: 480 });
    assert!(!ui.is_current(&context));
    ui.update_pipeline(&context);
    assert!(ui.is_current(&context));
    assert_eq!(ui.get_pipeline().viewport, Viewport { dimensions: Extent { width: 640, height: 480 } });
    assert_eq!(*ui.get_transform(), Transform { u_scale: [ONE, ONE], u_translate: [0, 0] });
}

#[test]
fn ui_triangle() {
    let ui = UI::new(&context());
    let half = ONE as i64 / 2;
    assert_eq!(
        *ui.get_vertices(),
        vec![
            UIVertex { position: [-half, -half], color: [255, 0, 0, 255] },
            UIVertex { position: [0, half], color: [0, 255, 0, 255] },
            UIVertex { position: [half, -half / 2], color: [0, 0, 255, 255] },
        ]
    );
    assert_eq!(ui.get_vertices().len(), UI_VERTEX_COUNT as usize);
}
