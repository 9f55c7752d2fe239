use vstd::prelude::*;
use crate::commands::lemma_record_each_by_targets;
use crate::commands::record_each;
use crate::commands::recorded;
use crate::commands::targets;
use crate::commands::targets_match;
use crate::commands::Command;
use crate::commands::CommandBuffer;
use crate::commands::GraphicsPipeline;
use crate::commands::PipelineId;
use crate::commands::PrimitiveTopology;
use crate::commands::RecordedCommands;
use crate::commands::Transform;
use crate::commands::VertexBufferId;
use crate::render::recorded_against;
use crate::render::Framebuffer;
use crate::render::Renderer;
use crate::render::RendererContext;
use crate::render::Viewport;

verus! {

/// 1.0 as a 32.32 fixed-point number. All page coordinates, scales and
/// translations are in this format: the value is the integer divided by `ONE`.
pub const ONE: u64 = 0x1_0000_0000;

/// The least scale that the arithmetic carries: the least one whose grid spacing
/// still fits the 16 bits of a spacing. Every scale from here on is also changed
/// by each of the two rounded multiplications of a wheel event.
pub const MIN_SCALE: u64 = 6554;

/// The greatest scale that the arithmetic carries: the greatest 64-bit number.
pub const MAX_SCALE: u64 = 0xffff_ffff_ffff_ffff;

/// The coordinate at which grid lines end: 10^9, far outside any viewport.
pub const FAR: i64 = 4_294_967_296_000_000_000;

/// The number of grid lines per direction on the page.
pub const GRID_CELLS: u16 = 200;

/// A vertex of the page, in page coordinates.
#[derive(Clone, Copy, Debug, PartialEq, Eq)]
pub struct PageVert {
    pub position: [i64; 2],
}

/// Where grid line `i` of `count` lines lies at the given spacing:
/// `i * spacing - count * spacing / 2`, so that the lines are centred on the origin.
pub open spec fn grid_offset(count: u16, spacing: u16, i: int) -> int {
    (2 * i - count) * spacing * 0x8000_0000
}

/// Vertex `k` of the grid. Line `k / 4` contributes four vertices: the two ends of
/// its horizontal line, left then right, and the two ends of its vertical line,
/// bottom then top.
pub open spec fn grid_vertex(count: u16, spacing: u16, k: int) -> PageVert {
    let pos = grid_offset(count, spacing, k / 4) as i64;
    if k % 4 == 0 {
        PageVert { position: [(-FAR) as i64, pos] }
    } else if k % 4 == 1 {
        PageVert { position: [FAR, pos] }
    } else if k % 4 == 2 {
        PageVert { position: [pos, (-FAR) as i64] }
    } else {
        PageVert { position: [pos, FAR] }
    }
}

/// The grid of `count` horizontal and `count` vertical lines at the given spacing.
pub open spec fn grid_spec(count: u16, spacing: u16) -> Seq<PageVert> {
    Seq::new(4 * count as nat, |k: int| grid_vertex(count, spacing, k))
}

/// Every grid offset fits a coordinate.
pub proof fn lemma_grid_offset_bounds(count: u16, spacing: u16, i: int)
    requires
        0 <= i < count,
    ensures
        i64::MIN < grid_offset(count, spacing, i) < i64::MAX,
{
    let a = 2 * i - count;
    assert(-65535 <= a <= 65535);
    assert(-65535 * 65535 <= a * spacing <= 65535 * 65535) by (nonlinear_arith)
        requires
            -65535 <= a <= 65535,
            0 <= spacing <= 65535,
    ;
    assert(a * spacing * 0x8000_0000 == (a * spacing) * 0x8000_0000) by (nonlinear_arith);
}

/// The grid vertices for `count` lines per direction at `spacing`: four per line,
/// line after line.
pub fn generate_grid(count: u16, spacing: u16) -> (grid: Vec<PageVert>)
    ensures
        grid@ == grid_spec(count, spacing),
{
    let mut grid: Vec<PageVert> = Vec::new();
    let mut i: u16 = 0;
    while i < count
        invariant
            i <= count,
            grid@.len() == 4 * i,
            forall|k: int| 0 <= k < 4 * i ==> #[trigger] grid@[k] == grid_vertex(count, spacing, k),
        decreases count - i,
    {
        proof {
            lemma_grid_offset_bounds(count, spacing, i as int);
        }
        let a: i64 = 2 * (i as i64) - (count as i64);
        assert(-65535 * 65535 <= a * spacing <= 65535 * 65535) by (nonlinear_arith)
            requires
                -65535 <= a <= 65535,
                0 <= spacing <= 65535,
        ;
        let b: i64 = a * (spacing as i64);
        let pos: i64 = b * 0x8000_0000;
        assert(pos == grid_offset(count, spacing, i as int));
        grid.push(PageVert { position: [-FAR, pos] });
        grid.push(PageVert { position: [FAR, pos] });
        grid.push(PageVert { position: [pos, -FAR] });
        grid.push(PageVert { position: [pos, FAR] });
        i = i + 1;
    }
    assert(grid@ =~= grid_spec(count, spacing));
    grid
}

/// The grid holds, for every line index `i`, a horizontal line at height
/// `i * spacing - count * spacing / 2` that runs from `-FAR` to `FAR`, and a
/// vertical line at the same abscissa that runs from `-FAR` to `FAR`; it holds
/// `4 * count` vertices in all, and `FAR` is 10^9.
pub proof fn lemma_grid_lines(count: u16, spacing: u16, i: int)
    requires
        0 <= i < count,
    ensures
        grid_spec(count, spacing).len() == 4 * count,
        FAR == 1_000_000_000 * ONE,
        2 * grid_offset(count, spacing, i) == (2 * (i * spacing) - count * spacing) * ONE,
        grid_spec(count, spacing)[4 * i].position[0] == -FAR,
        grid_spec(count, spacing)[4 * i + 1].position[0] == FAR,
        grid_spec(count, spacing)[4 * i].position[1] == grid_offset(count, spacing, i),
        grid_spec(count, spacing)[4 * i + 1].position[1] == grid_offset(count, spacing, i),
        grid_spec(count, spacing)[4 * i + 2].position[1] == -FAR,
        grid_spec(count, spacing)[4 * i + 3].position[1] == FAR,
        grid_spec(count, spacing)[4 * i + 2].position[0] == grid_offset(count, spacing, i),
        grid_spec(count, spacing)[4 * i + 3].position[0] == grid_offset(count, spacing, i),
{
    lemma_grid_offset_bounds(count, spacing, i);
    assert(2 * ((2 * i - count) * spacing * 0x8000_0000) == (2 * (i * spacing) - count * spacing) * 0x1_0000_0000)
        by (nonlinear_arith);
}

/// A scale multiplied by `permille / 1000`, rounded down.
pub open spec fn scaled_by(scale: int, permille: int) -> int {
    scale * permille / 1000
}

/// A scale as the machine holds it: a value below `MIN_SCALE` or above `MAX_SCALE`
/// cannot be carried and is replaced by that limit.
pub open spec fn clamp_scale(scale: int) -> u64 {
    if scale < MIN_SCALE {
        MIN_SCALE
    } else if scale > MAX_SCALE {
        MAX_SCALE
    } else {
        scale as u64
    }
}

/// The scale after one wheel event: multiplied twice in a row by 1.025 for a
/// positive tick, by 0.975 otherwise, each time rounded down. Only a result that
/// the machine cannot carry is replaced by the nearest limit.
pub open spec fn zoomed(scale: u64, positive: bool) -> u64 {
    let permille: int = if positive { 1025 } else { 975 };
    clamp_scale(scaled_by(scaled_by(scale as int, permille), permille))
}

/// The vertical scale that goes with a horizontal one: multiplied by the
/// viewport's width over its height, saturating; a viewport of no height counts as
/// infinitely wide.
pub open spec fn aspect_corrected(scale: u64, viewport: Viewport) -> u64 {
    if viewport.dimensions.height == 0 {
        u64::MAX
    } else {
        let corrected = scale * viewport.dimensions.width / (viewport.dimensions.height as int);
        if corrected > u64::MAX {
            u64::MAX
        } else {
            corrected as u64
        }
    }
}

/// The grid spacing at a scale: a tenth of the inverse scale, rounded up to a whole
/// number of page units.
pub open spec fn grid_spacing(scale: u64) -> u16 {
    let spacing = (ONE + 10 * scale - 1) / (10 * scale);
    if spacing > u16::MAX {
        u16::MAX
    } else {
        spacing as u16
    }
}

/// How far a drag of `delta` pixels moves the page along an axis on which the
/// viewport measures `dimension` pixels: `delta * 2 / dimension`, rounded towards
/// zero. Without any extent on that axis, the page does not move.
pub open spec fn pan_step(delta: int, dimension: int) -> int {
    if dimension <= 0 {
        0
    } else if delta >= 0 {
        delta * 2 / dimension
    } else {
        -((-delta) * 2 / dimension)
    }
}

/// A translation moved by a drag, saturating at the ends of the coordinate range.
pub open spec fn translated(translate: i64, delta: i64, dimension: u32) -> i64 {
    let moved = translate + pan_step(delta as int, dimension as int);
    if moved < i64::MIN {
        i64::MIN
    } else if moved > i64::MAX {
        i64::MAX
    } else {
        moved as i64
    }
}

fn zoom_scale(scale: u64, positive: bool) -> (next: u64)
    ensures
        next == zoomed(scale, positive),
{
    let permille: u128 = if positive { 1025 } else { 975 };
    let once: u128 = (scale as u128) * permille / 1000;
    assert(once <= 0xffff_ffff_ffff_ffff * 1025 / 1000);
    let twice: u128 = once * permille / 1000;
    if twice < MIN_SCALE as u128 {
        MIN_SCALE
    } else if twice > MAX_SCALE as u128 {
        MAX_SCALE
    } else {
        twice as u64
    }
}

fn correct_aspect(scale: u64, viewport: &Viewport) -> (corrected: u64)
    ensures
        corrected == aspect_corrected(scale, *viewport),
{
    if viewport.dimensions.height == 0 {
        return u64::MAX;
    }
    assert(scale * viewport.dimensions.width <= 0xffff_ffff_ffff_ffff * 0xffff_ffff) by (nonlinear_arith)
        requires
            0 <= scale <= 0xffff_ffff_ffff_ffff,
            0 <= viewport.dimensions.width <= 0xffff_ffff,
    ;
    let product: u128 = (scale as u128) * (viewport.dimensions.width as u128);
    let corrected: u128 = product / (viewport.dimensions.height as u128);
    if corrected > u64::MAX as u128 {
        u64::MAX
    } else {
        corrected as u64
    }
}

fn spacing_for(scale: u64) -> (spacing: u16)
    requires
        MIN_SCALE <= scale,
    ensures
        spacing == grid_spacing(scale),
        spacing >= 1,
{
    let divisor: u128 = 10 * (scale as u128);
    let spacing: u128 = (ONE as u128 + divisor - 1) / divisor;
    assert(spacing <= 65533 && spacing >= 1) by (nonlinear_arith)
        requires
            spacing == (0x1_0000_0000 + divisor - 1) / (divisor as int),
            divisor >= 65540,
    ;
    spacing as u16
}

fn translate_axis(translate: i64, delta: i64, dimension: u32) -> (moved: i64)
    ensures
        moved == translated(translate, delta, dimension),
{
    if dimension == 0 {
        return translate;
    }
    let magnitude: i128 = if delta >= 0 { delta as i128 } else { -(delta as i128) };
    let quotient: i128 = magnitude * 2 / (dimension as i128);
    assert(0 <= quotient <= magnitude * 2) by (nonlinear_arith)
        requires
            quotient == magnitude * 2 / (dimension as int),
            magnitude >= 0,
            dimension >= 1,
    ;
    let step: i128 = if delta >= 0 { quotient } else { -quotient };
    let moved: i128 = (translate as i128) + step;
    if moved < i64::MIN as i128 {
        i64::MIN
    } else if moved > i64::MAX as i128 {
        i64::MAX
    } else {
        moved as i64
    }
}

/// The scale after a wheel event is one that the machine carries, so it stays
/// positive whatever the sequence of wheel events.
pub proof fn lemma_zoom_stays_positive(scale: u64, positive: bool)
    ensures
        0 < MIN_SCALE <= zoomed(scale, positive) <= MAX_SCALE,
{
}

/// Wherever the machine carries the result, a wheel event multiplies the scale
/// twice, rounding down each time, and does nothing else.
pub proof fn lemma_zoom_multiplies_twice(scale: u64, positive: bool)
    requires
        MIN_SCALE <= scaled_by(scaled_by(scale as int, if positive { 1025int } else { 975int }), if positive {
            1025int
        } else {
            975int
        }) <= MAX_SCALE,
    ensures
        zoomed(scale, positive) == scaled_by(scaled_by(scale as int, if positive { 1025int } else { 975int }), if positive {
            1025int
        } else {
            975int
        }),
{
}

/// A positive wheel event strictly increases every scale that the machine carries
/// but the greatest.
pub proof fn lemma_zoom_in_increases(scale: u64)
    requires
        MIN_SCALE <= scale < MAX_SCALE,
    ensures
        zoomed(scale, true) > scale,
{
    let once = scaled_by(scale as int, 1025);
    assert(once > scale) by (nonlinear_arith)
        requires
            once == scale * 1025 / 1000,
            scale >= 6554,
    ;
    let twice = scaled_by(once, 1025);
    assert(twice > once) by (nonlinear_arith)
        requires
            twice == once * 1025 / 1000,
            once >= 6554,
    ;
}

/// A wheel event that is not positive strictly decreases every scale that the
/// machine carries but the least.
pub proof fn lemma_zoom_out_decreases(scale: u64)
    requires
        MIN_SCALE < scale <= MAX_SCALE,
    ensures
        zoomed(scale, false) < scale,
{
    let once = scaled_by(scale as int, 975);
    assert(0 <= once < scale) by (nonlinear_arith)
        requires
            once == scale * 975 / 1000,
            scale >= 6554,
    ;
    let twice = scaled_by(once, 975);
    assert(twice <= once) by (nonlinear_arith)
        requires
            twice == once * 975 / 1000,
            once >= 0,
    ;
}

/// A positive wheel event followed by one that is not positive does not cancel:
/// it leaves every scale but the least below where it started.
pub proof fn lemma_zoom_in_then_out_loses(scale: u64)
    requires
        MIN_SCALE < scale <= MAX_SCALE,
    ensures
        zoomed(zoomed(scale, true), false) < scale,
{
    let up_once = scaled_by(scale as int, 1025);
    let up_twice = scaled_by(up_once, 1025);
    let up = zoomed(scale, true) as int;
    assert(up_once * 1000 <= scale * 1025 && up_once >= 0) by (nonlinear_arith)
        requires
            up_once == scale * 1025 / 1000,
            scale >= 0,
    ;
    assert(up_twice * 1000 <= up_once * 1025 && up_twice >= up_once) by (nonlinear_arith)
        requires
            up_twice == up_once * 1025 / 1000,
            up_once >= 0,
    ;
    lemma_zoom_in_increases_or_stays(scale);
    assert(up <= up_twice);
    let down_once = scaled_by(up, 975);
    let down_twice = scaled_by(down_once, 975);
    assert(down_once * 1000 <= up * 975 && down_once >= 0) by (nonlinear_arith)
        requires
            down_once == up * 975 / 1000,
            up >= 0,
    ;
    assert(down_twice * 1000 <= down_once * 975 && down_twice >= 0) by (nonlinear_arith)
        requires
            down_twice == down_once * 975 / 1000,
            down_once >= 0,
    ;
    assert(down_twice < scale) by (nonlinear_arith)
        requires
            up_once * 1000 <= scale * 1025,
            up_twice * 1000 <= up_once * 1025,
            up <= up_twice,
            down_once * 1000 <= up * 975,
            down_twice * 1000 <= down_once * 975,
            scale > 0,
            up_once >= 0,
            up_twice >= 0,
            up >= 0,
            down_once >= 0,
            down_twice >= 0,
    ;
}

/// The scale after a positive wheel event is at most the twice-multiplied one, and
/// at least the least scale.
proof fn lemma_zoom_in_increases_or_stays(scale: u64)
    requires
        MIN_SCALE <= scale,
    ensures
        zoomed(scale, true) <= scaled_by(scaled_by(scale as int, 1025), 1025),
{
    let once = scaled_by(scale as int, 1025);
    assert(once >= scale) by (nonlinear_arith)
        requires
            once == scale * 1025 / 1000,
            scale >= 0,
    ;
    let twice = scaled_by(once, 1025);
    assert(twice >= once) by (nonlinear_arith)
        requires
            twice == once * 1025 / 1000,
            once >= 0,
    ;
}

/// The grid spacing is the least whole number of page units that is at least a
/// tenth of the inverse scale.
pub proof fn lemma_grid_spacing_is_ceiling(scale: u64)
    requires
        scale >= MIN_SCALE,
    ensures
        grid_spacing(scale) * (10 * scale) >= ONE,
        (grid_spacing(scale) - 1) * (10 * scale) < ONE,
{
    let divisor = 10 * scale;
    let spacing = (ONE + divisor - 1) / divisor;
    assert(spacing * divisor >= 0x1_0000_0000 && (spacing - 1) * divisor < 0x1_0000_0000 && spacing <= 65533)
        by (nonlinear_arith)
        requires
            spacing == (0x1_0000_0000 + divisor - 1) / divisor,
            divisor >= 65540,
    ;
}

/// A drag followed by the opposite drag, under one viewport, puts the translation
/// back where it was, as long as the drag does not run into the end of the
/// coordinate range.
pub proof fn lemma_pan_round_trip(translate: i64, delta: i64, dimension: u32)
    requires
        delta > i64::MIN,
        i64::MIN <= translate + pan_step(delta as int, dimension as int) <= i64::MAX,
    ensures
        translated(translated(translate, delta, dimension), (-delta) as i64, dimension) == translate,
{
    assert(pan_step(-(delta as int), dimension as int) == -pan_step(delta as int, dimension as int));
}

/// The commands of the page against one framebuffer: one render pass that clears
/// to opaque black, draws the grid as a line list and then the signal trace as a
/// line strip, both under the same transform.
pub open spec fn page_script(framebuffer: Framebuffer, grid_len: u32, signal_len: u32, transform: Transform) -> Seq<Command> {
    seq![
        Command::BeginRenderPass { framebuffer, clear: Some([0u8, 0u8, 0u8, 255u8]) },
        Command::BindPipelineGraphics { pipeline: PipelineId::PageGrid },
        Command::BindVertexBuffers { first_binding: 0, buffer: VertexBufferId::PageGrid },
        Command::PushConstants { offset: 0, transform },
        Command::Draw { vertex_count: grid_len, instance_count: 1, first_vertex: 0, first_instance: 0 },
        Command::BindPipelineGraphics { pipeline: PipelineId::PageSignal },
        Command::BindVertexBuffers { first_binding: 0, buffer: VertexBufferId::PageSignal },
        Command::PushConstants { offset: 0, transform },
        Command::Draw { vertex_count: signal_len, instance_count: 1, first_vertex: 0, first_instance: 0 },
        Command::EndRenderPass,
    ]
}

/// The state of the grid pipeline for a viewport: a list of lines two pixels wide.
pub open spec fn page_pipeline(viewport: Viewport) -> GraphicsPipeline {
    GraphicsPipeline { topology: PrimitiveTopology::LineList, viewport, line_width: 2, blend_alpha: false }
}

/// The state of the signal pipeline for a viewport: a strip of lines two pixels wide.
pub open spec fn signal_pipeline(viewport: Viewport) -> GraphicsPipeline {
    GraphicsPipeline { topology: PrimitiveTopology::LineStrip, viewport, line_width: 2, blend_alpha: false }
}

/// The vertices of a trace through the given points, in order.
pub open spec fn line_segment_verts(line_points: Seq<[i64; 2]>) -> Seq<PageVert> {
    Seq::new(line_points.len(), |i: int| PageVert { position: line_points[i] })
}

fn create_grid_buffer(spacing: u16) -> (grid: Vec<PageVert>)
    ensures
        grid@ == grid_spec(GRID_CELLS, spacing),
{
    generate_grid(GRID_CELLS, spacing)
}

fn create_page_pipeline(render_context: &RendererContext) -> (pipeline: GraphicsPipeline)
    ensures
        pipeline == page_pipeline(render_context.viewport()),
{
    GraphicsPipeline {
        topology: PrimitiveTopology::LineList,
        viewport: *render_context.get_viewport(),
        line_width: 2,
        blend_alpha: false,
    }
}

fn create_signal_pipeline(render_context: &RendererContext) -> (pipeline: GraphicsPipeline)
    ensures
        pipeline == signal_pipeline(render_context.viewport()),
{
    GraphicsPipeline {
        topology: PrimitiveTopology::LineStrip,
        viewport: *render_context.get_viewport(),
        line_width: 2,
        blend_alpha: false,
    }
}

fn create_line_segment_vert_buf(line_points: &Vec<[i64; 2]>) -> (verts: Vec<PageVert>)
    ensures
        verts@ == line_segment_verts(line_points@),
{
    let mut verts: Vec<PageVert> = Vec::new();
    let mut i: usize = 0;
    while i < line_points.len()
        invariant
            i <= line_points.len(),
            verts@ == line_segment_verts(line_points@.take(i as int)),
        decreases line_points.len() - i,
    {
        verts.push(PageVert { position: line_points[i] });
        i = i + 1;
        assert(verts@ =~= line_segment_verts(line_points@.take(i as int)));
    }
    assert(line_points@.take(i as int) =~= line_points@);
    verts
}

fn create_page_cmd_bufs(
    render_context: &RendererContext,
    grid_len: u32,
    signal_len: u32,
    transform_push_constants: &Transform,
) -> (command_buffers: Vec<CommandBuffer>)
    ensures
        recorded(command_buffers@) == record_each(
            render_context.framebuffers(),
            |framebuffer: Framebuffer| page_script(framebuffer, grid_len, signal_len, *transform_push_constants),
        ),
{
    let framebuffers = render_context.get_framebuffers();
    let mut command_buffers: Vec<CommandBuffer> = Vec::new();
    let mut i: usize = 0;
    while i < framebuffers.len()
        invariant
            i <= framebuffers.len(),
            command_buffers.len() == i,
            forall|j: int| 0 <= j < i ==> (#[trigger] command_buffers@[j])@ == (RecordedCommands {
                framebuffer: framebuffers@[j],
                commands: page_script(framebuffers@[j], grid_len, signal_len, *transform_push_constants),
            }),
        decreases framebuffers.len() - i,
    {
        let framebuffer = framebuffers[i];
        let transform = *transform_push_constants;
        let mut commands: Vec<Command> = Vec::new();
        commands.push(Command::BeginRenderPass { framebuffer, clear: Some([0u8, 0u8, 0u8, 255u8]) });
        commands.push(Command::BindPipelineGraphics { pipeline: PipelineId::PageGrid });
        commands.push(Command::BindVertexBuffers { first_binding: 0, buffer: VertexBufferId::PageGrid });
        commands.push(Command::PushConstants { offset: 0, transform });
        commands.push(Command::Draw { vertex_count: grid_len, instance_count: 1, first_vertex: 0, first_instance: 0 });
        commands.push(Command::BindPipelineGraphics { pipeline: PipelineId::PageSignal });
        commands.push(Command::BindVertexBuffers { first_binding: 0, buffer: VertexBufferId::PageSignal });
        commands.push(Command::PushConstants { offset: 0, transform });
        commands.push(Command::Draw { vertex_count: signal_len, instance_count: 1, first_vertex: 0, first_instance: 0 });
        commands.push(Command::EndRenderPass);
        assert(commands@ =~= page_script(framebuffer, grid_len, signal_len, transform));
        command_buffers.push(CommandBuffer { framebuffer, commands });
        i = i + 1;
    }
    assert(recorded(command_buffers@) =~= record_each(
        render_context.framebuffers(),
        |framebuffer: Framebuffer| page_script(framebuffer, grid_len, signal_len, *transform_push_constants),
    ));
    command_buffers
}

/// The page: a grid and a signal trace under one pan-and-zoom transform.
pub struct Page {
    grid_graphics_pipeline: GraphicsPipeline,
    line_graphics_pipeline: GraphicsPipeline,
    command_buffers: Vec<CommandBuffer>,
    grid_vert_buffer: Vec<PageVert>,
    line_vert_buffer: Vec<PageVert>,
    transform_push_constants: Transform,
    scale: u64,
}

impl Page {
    /// The horizontal scale of the view.
    pub closed spec fn scale(&self) -> u64 {
        self.scale
    }

    /// The transform pushed with every draw.
    pub closed spec fn transform(&self) -> Transform {
        self.transform_push_constants
    }

    /// The vertices of the grid.
    pub closed spec fn grid(&self) -> Seq<PageVert> {
        self.grid_vert_buffer@
    }

    /// The vertices of the signal trace.
    pub closed spec fn signal(&self) -> Seq<PageVert> {
        self.line_vert_buffer@
    }

    /// The state of the grid pipeline.
    pub closed spec fn grid_pipeline(&self) -> GraphicsPipeline {
        self.grid_graphics_pipeline
    }

    /// The state of the signal pipeline.
    pub closed spec fn line_pipeline(&self) -> GraphicsPipeline {
        self.line_graphics_pipeline
    }

    /// What holds of the page between a change of its view and the recording that
    /// follows: all of the invariant but the part on the grid and the cache.
    closed spec fn settled(&self) -> bool {
        &&& MIN_SCALE <= self.scale <= MAX_SCALE
        &&& self.transform_push_constants.u_scale[0] == self.scale
        &&& self.line_vert_buffer@.len() <= u32::MAX
        &&& self.grid_graphics_pipeline == page_pipeline(self.grid_graphics_pipeline.viewport)
        &&& self.line_graphics_pipeline == signal_pipeline(self.grid_graphics_pipeline.viewport)
    }

    /// Regenerates the grid at the spacing of the present scale and records the
    /// command buffers against the context's framebuffers.
    fn record(&mut self, render_context: &RendererContext)
        requires
            old(self).settled(),
        ensures
            final(self).wf(),
            final(self).scale() == old(self).scale(),
            final(self).transform() == old(self).transform(),
            final(self).grid() == grid_spec(GRID_CELLS, grid_spacing(final(self).scale())),
            final(self).signal() == old(self).signal(),
            final(self).grid_pipeline() == old(self).grid_pipeline(),
            final(self).line_pipeline() == old(self).line_pipeline(),
            final(self).pipeline_viewport() == old(self).pipeline_viewport(),
            final(self).command_buffers() == record_each(
                render_context.framebuffers(),
                |framebuffer: Framebuffer| final(self).script(framebuffer),
            ),
    {
        let spacing = spacing_for(self.scale);
        self.grid_vert_buffer = create_grid_buffer(spacing);
        let command_buffers = self.create_page_cmd_bufs(render_context);
        let ghost before = *self;
        self.command_buffers = command_buffers;
        proof {
            let framebuffers = render_context.framebuffers();
            assert forall|i: int| 0 <= i < framebuffers.len() implies (#[trigger] recorded(self.command_buffers@)[i])
                == (RecordedCommands { framebuffer: framebuffers[i], commands: self.script(framebuffers[i]) }) by {
                assert(recorded(self.command_buffers@)[i] == record_each(
                    framebuffers,
                    |framebuffer: Framebuffer| before.script(framebuffer),
                )[i]);
                assert(before.script(framebuffers[i]) == self.script(framebuffers[i]));
            }
            assert(self.command_buffers() =~= record_each(
                framebuffers,
                |framebuffer: Framebuffer| self.script(framebuffer),
            ));
        }
    }

    /// The page at unit scale, untranslated, with the grid at spacing one and a
    /// trace through `test_signal`, built for the context as it is.
    pub fn new(render_context: &RendererContext, test_signal: &Vec<[i64; 2]>) -> (page: Self)
        requires
            render_context.wf(),
            test_signal.len() <= u32::MAX,
        ensures
            page.wf(),
            page.scale() == ONE,
            page.transform().u_scale[0] == ONE,
            page.transform().u_scale[1] == aspect_corrected(ONE, render_context.viewport()),
            page.transform().u_translate[0] == 0,
            page.transform().u_translate[1] == 0,
            page.grid() == grid_spec(GRID_CELLS, 1),
            page.signal() == line_segment_verts(test_signal@),
            page.grid_pipeline() == page_pipeline(render_context.viewport()),
            page.line_pipeline() == signal_pipeline(render_context.viewport()),
            page.pipeline_viewport() == render_context.viewport(),
            page.command_buffers() == recorded_against(&page, render_context.framebuffers()),
    {
        let grid_vert_buffer = create_grid_buffer(1);
        let line_vert_buffer = create_line_segment_vert_buf(test_signal);
        let grid_graphics_pipeline = create_page_pipeline(render_context);
        let line_graphics_pipeline = create_signal_pipeline(render_context);
        let aspect_ratio_x: u64 = ONE;
        let aspect_ratio_y: u64 = correct_aspect(ONE, render_context.get_viewport());
        let transform_push_constants = Transform { u_scale: [aspect_ratio_x, aspect_ratio_y], u_translate: [0, 0] };
        let command_buffers = create_page_cmd_bufs(
            render_context,
            grid_vert_buffer.len() as u32,
            line_vert_buffer.len() as u32,
            &transform_push_constants,
        );
        let page = Page {
            grid_graphics_pipeline,
            line_graphics_pipeline,
            command_buffers,
            grid_vert_buffer,
            line_vert_buffer,
            transform_push_constants,
            scale: ONE,
        };
        proof {
            assert((ONE + 10 * ONE - 1) / (10 * ONE) == 1) by (nonlinear_arith);
            assert(page.command_buffers() =~= recorded_against(&page, render_context.framebuffers()));
        }
        page
    }

    fn create_page_cmd_bufs(&self, render_context: &RendererContext) -> (command_buffers: Vec<CommandBuffer>)
        requires
            self.grid_vert_buffer.len() <= u32::MAX,
            self.line_vert_buffer.len() <= u32::MAX,
        ensures
            recorded(command_buffers@) == record_each(
                render_context.framebuffers(),
                |framebuffer: Framebuffer| self.script(framebuffer),
            ),
    {
        let command_buffers = create_page_cmd_bufs(
            render_context,
            self.grid_vert_buffer.len() as u32,
            self.line_vert_buffer.len() as u32,
            &self.transform_push_constants,
        );
        assert(recorded(command_buffers@) =~= record_each(
            render_context.framebuffers(),
            |framebuffer: Framebuffer| self.script(framebuffer),
        ));
        command_buffers
    }

    /// What a wheel event makes of the page `before`, under the given context:
    /// the scale is zoomed, the vertical scale follows by the context's aspect
    /// ratio, the grid is the one of the new scale, and the command buffers are
    /// recorded against the context's framebuffers. The translation, the signal
    /// trace and the pipelines are those of `before`.
    pub open spec fn is_zoom_of(&self, before: &Page, zoom_change: i64, render_context: &RendererContext) -> bool {
        &&& self.scale() == zoomed(before.scale(), zoom_change > 0)
        &&& self.transform().u_scale[0] == self.scale()
        &&& self.transform().u_scale[1] == aspect_corrected(self.scale(), render_context.viewport())
        &&& self.transform().u_translate == before.transform().u_translate
        &&& self.grid() == grid_spec(GRID_CELLS, grid_spacing(self.scale()))
        &&& self.signal() == before.signal()
        &&& self.grid_pipeline() == before.grid_pipeline()
        &&& self.line_pipeline() == before.line_pipeline()
        &&& self.pipeline_viewport() == before.pipeline_viewport()
        &&& self.command_buffers() == recorded_against(self, render_context.framebuffers())
    }

    /// What a drag of `translate_delta` pixels makes of the page `before`, under
    /// the given context: each axis of the translation has moved by the drag's
    /// share of the viewport, and the command buffers are recorded against the
    /// context's framebuffers. Scale, grid, signal trace and pipelines are those
    /// of `before`.
    pub open spec fn is_translation_of(&self, before: &Page, translate_delta: (i64, i64), render_context: &RendererContext) -> bool {
        &&& self.transform().u_translate[0] == translated(
            before.transform().u_translate[0],
            translate_delta.0,
            render_context.viewport().dimensions.width,
        )
        &&& self.transform().u_translate[1] == translated(
            before.transform().u_translate[1],
            translate_delta.1,
            render_context.viewport().dimensions.height,
        )
        &&& self.transform().u_scale == before.transform().u_scale
        &&& self.scale() == before.scale()
        &&& self.grid() == before.grid()
        &&& self.signal() == before.signal()
        &&& self.grid_pipeline() == before.grid_pipeline()
        &&& self.line_pipeline() == before.line_pipeline()
        &&& self.pipeline_viewport() == before.pipeline_viewport()
        &&& self.command_buffers() == recorded_against(self, render_context.framebuffers())
    }

    /// What the invariant says of a page: the scale is one that the machine
    /// carries and heads the transform, the grid is the one of the scale, and the
    /// signal trace fits one draw call.
    pub proof fn lemma_invariant(&self)
        requires
            self.wf(),
        ensures
            MIN_SCALE <= self.scale() <= MAX_SCALE,
            self.transform().u_scale[0] == self.scale(),
            self.grid() == grid_spec(GRID_CELLS, grid_spacing(self.scale())),
            self.grid().len() == 4 * GRID_CELLS,
            self.signal().len() <= u32::MAX,
            self.grid_pipeline() == page_pipeline(self.pipeline_viewport()),
            self.line_pipeline() == signal_pipeline(self.pipeline_viewport()),
            self.command_buffers() == recorded_against(self, targets(self.command_buffers())),
    {
        let framebuffers = targets(self.command_buffers());
        assert(self.command_buffers() =~= recorded_against(self, framebuffers));
    }

    /// Tells whether this page shows what `other` shows: the same scale, transform,
    /// grid, signal trace and pipelines.
    pub open spec fn same_content(&self, other: &Page) -> bool {
        &&& self.scale() == other.scale()
        &&& self.transform() == other.transform()
        &&& self.grid() == other.grid()
        &&& self.signal() == other.signal()
        &&& self.grid_pipeline() == other.grid_pipeline()
        &&& self.line_pipeline() == other.line_pipeline()
    }

    /// What rebuilding the pipelines for the context makes of the page `before`:
    /// both pipelines are those of the context's viewport and the vertical scale
    /// follows its aspect ratio. Scale, translation, grid and signal trace are
    /// those of `before`.
    pub open spec fn is_rebuild_of(&self, before: &Page, render_context: &RendererContext) -> bool {
        &&& self.scale() == before.scale()
        &&& self.transform().u_scale[0] == self.scale()
        &&& self.transform().u_scale[1] == aspect_corrected(self.scale(), render_context.viewport())
        &&& self.transform().u_translate == before.transform().u_translate
        &&& self.grid() == before.grid()
        &&& self.grid() == grid_spec(GRID_CELLS, grid_spacing(self.scale()))
        &&& self.signal() == before.signal()
        &&& self.grid_pipeline() == page_pipeline(render_context.viewport())
        &&& self.line_pipeline() == signal_pipeline(render_context.viewport())
    }

    /// Handles one wheel event. A positive `zoom_change` multiplies the scale twice
    /// by 1.025, any other twice by 0.975, rounding down each time; only a result
    /// beyond `MIN_SCALE` or `MAX_SCALE`, which the machine cannot carry, is
    /// replaced by that limit. The grid is regenerated at the spacing of the new
    /// scale and the command buffers are recorded anew; the signal trace is left
    /// as it is.
    pub fn zoom(&mut self, zoom_change: i64, render_context: &RendererContext)
        requires
            old(self).wf(),
            render_context.wf(),
        ensures
            final(self).wf(),
            final(self).is_zoom_of(old(self), zoom_change, render_context),
    {
        self.scale = zoom_scale(self.scale, zoom_change > 0);
        let corrected = correct_aspect(self.scale, render_context.get_viewport());
        self.transform_push_constants = Transform {
            u_scale: [self.scale, corrected],
            u_translate: self.transform_push_constants.u_translate,
        };
        self.record(render_context);
    }

    /// Handles a drag of `translate_delta` pixels: each axis of the translation
    /// moves by `delta * 2 / dimension` of the context's viewport, saturating, and
    /// the command buffers are recorded anew. The pipelines are not rebuilt.
    pub fn translate(&mut self, translate_delta: (i64, i64), render_context: &RendererContext)
        requires
            old(self).wf(),
            render_context.wf(),
        ensures
            final(self).wf(),
            final(self).is_translation_of(old(self), translate_delta, render_context),
    {
        let viewport = render_context.get_viewport();
        let x = translate_axis(self.transform_push_constants.u_translate[0], translate_delta.0, viewport.dimensions.width);
        let y = translate_axis(self.transform_push_constants.u_translate[1], translate_delta.1, viewport.dimensions.height);
        self.transform_push_constants = Transform { u_scale: self.transform_push_constants.u_scale, u_translate: [x, y] };
        self.record(render_context);
    }

    /// The horizontal scale of the view.
    pub fn get_scale(&self) -> (scale: u64)
        ensures
            scale == self.scale(),
    {
        self.scale
    }

    /// The transform pushed with every draw.
    pub fn get_transform(&self) -> (transform: &Transform)
        ensures
            *transform == self.transform(),
    {
        &self.transform_push_constants
    }

    /// The vertices of the grid.
    pub fn get_grid(&self) -> (grid: &Vec<PageVert>)
        ensures
            grid@ == self.grid(),
    {
        &self.grid_vert_buffer
    }

    /// The vertices of the signal trace.
    pub fn get_signal(&self) -> (signal: &Vec<PageVert>)
        ensures
            signal@ == self.signal(),
    {
        &self.line_vert_buffer
    }

    /// The state of the grid pipeline.
    pub fn get_grid_pipeline(&self) -> (pipeline: &GraphicsPipeline)
        ensures
            *pipeline == self.grid_pipeline(),
    {
        &self.grid_graphics_pipeline
    }

    /// The state of the signal pipeline.
    pub fn get_line_pipeline(&self) -> (pipeline: &GraphicsPipeline)
        ensures
            *pipeline == self.line_pipeline(),
    {
        &self.line_graphics_pipeline
    }
}

impl Renderer for Page {
    /// The scale is within its range and heads the transform; the grid is the one
    /// of the present scale; both pipelines were built for one viewport; and every
    /// cached command buffer holds the page's present script for its framebuffer.
    closed spec fn wf(&self) -> bool {
        &&& self.settled()
        &&& self.grid_vert_buffer@ == grid_spec(GRID_CELLS, grid_spacing(self.scale))
        &&& forall|i: int| 0 <= i < self.command_buffers@.len() ==> (#[trigger] recorded(self.command_buffers@)[i]).commands
                == self.script(recorded(self.command_buffers@)[i].framebuffer)
    }

    open spec fn script(&self, framebuffer: Framebuffer) -> Seq<Command> {
        page_script(framebuffer, self.grid().len() as u32, self.signal().len() as u32, self.transform())
    }

    closed spec fn command_buffers(&self) -> Seq<RecordedCommands> {
        recorded(self.command_buffers@)
    }

    closed spec fn pipeline_viewport(&self) -> Viewport {
        self.grid_graphics_pipeline.viewport
    }

    fn create_pipeline(&self, render_context: &RendererContext) -> (pipeline: GraphicsPipeline)
        ensures
            pipeline == page_pipeline(render_context.viewport()),
    {
        create_page_pipeline(render_context)
    }

    fn update_command_buffers(&mut self, render_context: &RendererContext)
        ensures
            final(self).same_content(old(self)),
            final(self).grid() == grid_spec(GRID_CELLS, grid_spacing(final(self).scale())),
    {
        self.record(render_context);
    }

    fn update_pipeline(&mut self, render_context: &RendererContext)
        ensures
            final(self).is_rebuild_of(old(self), render_context),
    {
        let corrected = correct_aspect(self.scale, render_context.get_viewport());
        self.transform_push_constants = Transform {
            u_scale: [self.scale, corrected],
            u_translate: self.transform_push_constants.u_translate,
        };
        self.grid_graphics_pipeline = create_page_pipeline(render_context);
        self.line_graphics_pipeline = create_signal_pipeline(render_context);
        self.record(render_context);
    }

    fn execute_cmd_buf(&self, image_i: u32) -> (command_buffer: &CommandBuffer) {
        &self.command_buffers[image_i as usize]
    }

    fn is_current(&self, render_context: &RendererContext) -> (current: bool) {
        let viewport = render_context.get_viewport();
        let same_viewport = self.grid_graphics_pipeline.viewport.dimensions.width == viewport.dimensions.width
            && self.grid_graphics_pipeline.viewport.dimensions.height == viewport.dimensions.height;
        let same_targets = targets_match(&self.command_buffers, render_context.get_framebuffers());
        proof {
            lemma_record_each_by_targets(
                self.command_buffers(),
                render_context.framebuffers(),
                |framebuffer: Framebuffer| self.script(framebuffer),
            );
        }
        same_viewport && same_targets
    }
}

} // verus!
