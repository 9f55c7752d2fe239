use vstd::prelude::*;
use crate::atlas::addressable;
use crate::atlas::GlyphAtlas;
use crate::commands::lemma_record_each_by_targets;
use crate::commands::record_each;
use crate::commands::recorded;
use crate::commands::targets_match;
use crate::commands::Command;
use crate::commands::CommandBuffer;
use crate::commands::DescriptorSetId;
use crate::commands::GraphicsPipeline;
use crate::commands::PipelineId;
use crate::commands::PrimitiveTopology;
use crate::commands::RecordedCommands;
use crate::commands::VertexBufferId;
use crate::error::RendererError;
use crate::render::recorded_against;
use crate::render::Framebuffer;
use crate::render::Renderer;
use crate::render::RendererContext;
use crate::render::Viewport;

verus! {

/// The first character of the atlas.
pub const FIRST_GLYPH: char = '!';

/// The last character of the atlas.
pub const LAST_GLYPH: char = '~';

/// The number of glyphs in the atlas: the printable ASCII characters but the space.
pub const GLYPH_COUNT: usize = 94;

/// The number of pixels by which the atlas is wider and higher than its glyphs.
pub const ATLAS_MARGIN: u32 = 40;

/// The largest number of characters in one text: with six vertices each they
/// still fit one draw call.
pub const MAX_TEXT_CHARS: u32 = 715_827_882;

/// The number of metric units per pixel. Metrics and vertex positions of text are
/// in 26.6 fixed point.
pub const SUBPIXELS: i64 = 64;

/// The metrics of a font at the scale of the atlas, in 26.6 fixed point.
#[derive(Debug)]
pub struct FontMetrics {
    /// The distance from the top of a line to the baseline.
    pub ascent: i32,
    /// The distance from one line to the next.
    pub height: i32,
    /// The advance width of each glyph of the atlas.
    pub advances: Vec<i32>,
    /// The kerning of each pair of glyphs: the entry for the pair `(a, b)` is at
    /// `a * GLYPH_COUNT + b`.
    pub kerning: Vec<i32>,
}

impl FontMetrics {
    /// The advance width of glyph `g`.
    pub open spec fn advance(&self, g: int) -> int {
        self.advances@[g] as int
    }

    /// The kerning between glyph `a` and glyph `b` that follows it.
    pub open spec fn kern(&self, a: int, b: int) -> int {
        self.kerning@[a * GLYPH_COUNT + b] as int
    }

    /// The tables are complete, lines have a height, and no glyph moves the caret
    /// backwards, whatever glyph follows it.
    pub open spec fn valid(&self) -> bool {
        &&& self.advances@.len() == GLYPH_COUNT
        &&& self.kerning@.len() == GLYPH_COUNT * GLYPH_COUNT
        &&& self.ascent >= 0
        &&& self.height > 0
        &&& forall|g: int| 0 <= g < GLYPH_COUNT ==> #[trigger] self.advance(g) >= 0
        &&& forall|a: int, b: int| 0 <= a < GLYPH_COUNT && 0 <= b < GLYPH_COUNT ==> self.advance(a) + #[trigger] self.kern(a, b) >= 0
    }

    /// Where glyph `g` stands in the atlas, which holds all glyphs in one row in
    /// the order of their characters, kerned against their neighbours.
    pub open spec fn glyph_position(&self, g: int) -> int
        decreases g,
    {
        if g <= 0 {
            0
        } else {
            self.glyph_position(g - 1) + self.advance(g - 1) + self.kern(g - 1, g)
        }
    }

    /// The width of the row of glyphs in whole pixels.
    pub open spec fn glyphs_width(&self) -> int {
        (self.glyph_position(GLYPH_COUNT - 1) + self.advance(GLYPH_COUNT - 1) + (SUBPIXELS - 1)) / (SUBPIXELS as int)
    }

    /// The pixel column at which glyph `g` starts in the atlas. The column of the
    /// glyph count is the end of the row.
    pub open spec fn glyph_start(&self, g: int) -> int {
        if g < GLYPH_COUNT {
            self.glyph_position(g) / (SUBPIXELS as int)
        } else {
            self.glyphs_width()
        }
    }

    /// The height of a glyph in whole pixels.
    pub open spec fn glyph_height(&self) -> int {
        (self.height + (SUBPIXELS - 1)) / (SUBPIXELS as int)
    }

    /// The pixel columns at which the glyphs start, with the end of the row last.
    pub open spec fn glyph_starts(&self) -> Seq<u64> {
        Seq::new((GLYPH_COUNT + 1) as nat, |g: int| self.glyph_start(g) as u64)
    }

    /// In a valid font the glyphs follow each other from left to right, within
    /// bounds that leave room for arithmetic.
    pub proof fn lemma_glyph_positions(&self, g: int)
        requires
            self.valid(),
            0 <= g < GLYPH_COUNT,
        ensures
            0 <= self.glyph_position(g) <= g * 0x1_0000_0000,
            g > 0 ==> self.glyph_position(g - 1) <= self.glyph_position(g),
        decreases g,
    {
        if g > 0 {
            self.lemma_glyph_positions(g - 1);
            assert(self.advance(g - 1) + self.kern(g - 1, g) >= 0);
        }
    }

    /// In a valid font a glyph never stands left of the one before it.
    pub proof fn lemma_glyph_positions_ordered(&self, g: int, h: int)
        requires
            self.valid(),
            0 <= g <= h < GLYPH_COUNT,
        ensures
            self.glyph_position(g) <= self.glyph_position(h),
        decreases h - g,
    {
        if g < h {
            self.lemma_glyph_positions(h);
            self.lemma_glyph_positions_ordered(g, h - 1);
        }
    }

    /// In a valid font the columns of every glyph form a range within the row.
    pub proof fn lemma_glyph_starts_ordered(&self, g: int)
        requires
            self.valid(),
            0 <= g < GLYPH_COUNT,
        ensures
            0 <= self.glyph_start(g) <= self.glyph_start(g + 1) <= self.glyphs_width(),
    {
        self.lemma_glyph_positions(g);
        self.lemma_glyph_positions_ordered(g, GLYPH_COUNT - 1);
        assert(self.advance(GLYPH_COUNT - 1) >= 0);
        if g + 1 < GLYPH_COUNT {
            self.lemma_glyph_positions(g + 1);
            self.lemma_glyph_positions_ordered(g + 1, GLYPH_COUNT - 1);
        }
    }

    /// Tells whether the metrics can be used.
    pub fn is_valid(&self) -> (valid: bool)
        ensures
            valid == self.valid(),
    {
        if self.advances.len() != GLYPH_COUNT || self.kerning.len() != GLYPH_COUNT * GLYPH_COUNT || self.ascent < 0
            || self.height <= 0 {
            return false;
        }
        let mut a: usize = 0;
        while a < GLYPH_COUNT
            invariant
                a <= GLYPH_COUNT,
                self.advances@.len() == GLYPH_COUNT,
                self.kerning@.len() == GLYPH_COUNT * GLYPH_COUNT,
                forall|i: int| 0 <= i < a ==> #[trigger] self.advance(i) >= 0,
                forall|i: int, j: int| 0 <= i < a && 0 <= j < GLYPH_COUNT ==> self.advance(i) + #[trigger] self.kern(i, j) >= 0,
            decreases GLYPH_COUNT - a,
        {
            if self.advances[a] < 0 {
                assert(self.advance(a as int) < 0);
                return false;
            }
            let mut b: usize = 0;
            while b < GLYPH_COUNT
                invariant
                    a < GLYPH_COUNT,
                    b <= GLYPH_COUNT,
                    self.advance(a as int) >= 0,
                    self.advances@.len() == GLYPH_COUNT,
                    self.kerning@.len() == GLYPH_COUNT * GLYPH_COUNT,
                    forall|j: int| 0 <= j < b ==> self.advance(a as int) + #[trigger] self.kern(a as int, j) >= 0,
                decreases GLYPH_COUNT - b,
            {
                if (self.advances[a] as i64) + (self.kerning[a * GLYPH_COUNT + b] as i64) < 0 {
                    assert(self.advance(a as int) + self.kern(a as int, b as int) < 0);
                    return false;
                }
                b = b + 1;
            }
            a = a + 1;
        }
        true
    }

    /// The pixel columns at which the glyphs start in the atlas, with the end of
    /// the row last.
    pub fn glyph_start_pixels(&self) -> (starts: Vec<u64>)
        requires
            self.valid(),
        ensures
            starts@ == self.glyph_starts(),
    {
        let mut starts: Vec<u64> = Vec::new();
        let mut position: i64 = 0;
        let mut g: usize = 0;
        while g < GLYPH_COUNT
            invariant
                g <= GLYPH_COUNT,
                self.valid(),
                g < GLYPH_COUNT ==> position == self.glyph_position(g as int),
                g == GLYPH_COUNT ==> position == self.glyph_position(GLYPH_COUNT - 1) + self.advance(GLYPH_COUNT - 1),
                0 <= position <= (g + 1) * 0x1_0000_0000,
                starts@.len() == g,
                forall|i: int| 0 <= i < g ==> #[trigger] starts@[i] == self.glyph_starts()[i],
            decreases GLYPH_COUNT - g,
        {
            proof {
                self.lemma_glyph_positions(g as int);
            }
            starts.push((position / SUBPIXELS) as u64);
            if g + 1 < GLYPH_COUNT {
                proof {
                    self.lemma_glyph_positions(g + 1);
                    assert(self.glyph_position(g + 1) == self.glyph_position(g as int) + self.advance(g as int) + self.kern(
                        g as int,
                        g + 1,
                    ));
                }
                position = position + (self.advances[g] as i64 + self.kerning[g * GLYPH_COUNT + g + 1] as i64);
            } else {
                position = position + self.advances[g] as i64;
            }
            g = g + 1;
        }
        starts.push(((position + (SUBPIXELS - 1)) / SUBPIXELS) as u64);
        assert(starts@ =~= self.glyph_starts());
        starts
    }
}

/// A vertex of a text quad: a position in 26.6 fixed-point pixels, a colour, and
/// the atlas pixel that it maps to.
#[derive(Clone, Copy, Debug, PartialEq, Eq)]
pub struct TextQuadVert {
    pub v_position: [i64; 2],
    pub v_color: [u8; 4],
    pub v_uv: [u32; 2],
}

/// A registered piece of text: six vertices per glyph.
#[derive(Debug)]
pub struct TextObject {
    pub verts: Vec<TextQuadVert>,
}

/// Where the next glyph goes: the horizontal position, the line, and the glyph
/// before it on the line, if any.
pub struct Caret {
    pub x: int,
    pub line: int,
    pub previous: Option<int>,
}

/// The place of a character in the atlas, if it has one.
pub open spec fn glyph_of(c: char) -> Option<int> {
    if FIRST_GLYPH as u32 <= c as u32 <= LAST_GLYPH as u32 {
        Some(c as u32 - FIRST_GLYPH as u32)
    } else {
        None
    }
}

/// The characters that text may hold: those of the atlas, and the newline.
pub open spec fn supported(text: Seq<char>) -> bool {
    forall|i: int| 0 <= i < text.len() ==> #[trigger] text[i] == '\n' || glyph_of(text[i]) is Some
}

/// A white vertex.
pub open spec fn quad_vertex(x: int, y: int, u: int, v: int) -> TextQuadVert {
    TextQuadVert { v_position: [x as i64, y as i64], v_color: [255u8, 255u8, 255u8, 255u8], v_uv: [u as u32, v as u32] }
}

/// The two triangles of the rectangle from `(x0, y0)` to `(x1, y1)`, textured with
/// the atlas pixels from `(u0, v0)` to `(u1, v1)`.
pub open spec fn quad(x0: int, y0: int, x1: int, y1: int, u0: int, v0: int, u1: int, v1: int) -> Seq<TextQuadVert> {
    seq![
        quad_vertex(x0, y0, u0, v0),
        quad_vertex(x0, y1, u0, v1),
        quad_vertex(x1, y0, u1, v0),
        quad_vertex(x1, y0, u1, v0),
        quad_vertex(x0, y1, u0, v1),
        quad_vertex(x1, y1, u1, v1),
    ]
}

impl FontMetrics {
    /// Where glyph `g` is put when the caret stands at `before`: at the caret,
    /// moved by the kerning against the glyph before it.
    pub open spec fn pen(&self, before: Caret, g: int) -> int {
        before.x + match before.previous {
            Some(previous) => self.kern(previous, g),
            None => 0,
        }
    }

    /// The caret after `text` was laid out from the top left. A newline takes the
    /// caret to the start of the next line; a glyph moves it on by the glyph's
    /// advance width.
    pub open spec fn caret_after(&self, text: Seq<char>) -> Caret
        decreases text.len(),
    {
        if text.len() == 0 {
            Caret { x: 0, line: 0, previous: None }
        } else {
            let before = self.caret_after(text.drop_last());
            match glyph_of(text.last()) {
                Some(g) => Caret { x: self.pen(before, g) + self.advance(g), line: before.line, previous: Some(g) },
                None => Caret { x: 0, line: before.line + 1, previous: None },
            }
        }
    }

    /// The quad of glyph `g` put down with the caret at `before`: as wide as the
    /// glyph's columns in the atlas and as high as a glyph, its top on the top of
    /// the caret's line, textured with the glyph's columns.
    pub open spec fn glyph_quad(&self, before: Caret, g: int) -> Seq<TextQuadVert> {
        let x0 = self.pen(before, g);
        let y0 = before.line * self.height;
        quad(
            x0,
            y0,
            x0 + (self.glyph_start(g + 1) - self.glyph_start(g)) * SUBPIXELS,
            y0 + self.glyph_height() * SUBPIXELS,
            self.glyph_start(g),
            0,
            self.glyph_start(g + 1),
            self.glyph_height(),
        )
    }

    /// The vertices of `text`: one quad per glyph, in the order of the text.
    pub open spec fn text_quads(&self, text: Seq<char>) -> Seq<TextQuadVert>
        decreases text.len(),
    {
        if text.len() == 0 {
            Seq::empty()
        } else {
            let before = self.caret_after(text.drop_last());
            self.text_quads(text.drop_last()) + match glyph_of(text.last()) {
                Some(g) => self.glyph_quad(before, g),
                None => Seq::empty(),
            }
        }
    }

    /// Text of supported characters has at most six vertices per character, and
    /// the caret stays within bounds that leave room for arithmetic.
    pub proof fn lemma_layout_bounds(&self, text: Seq<char>)
        requires
            self.valid(),
            supported(text),
        ensures
            self.text_quads(text).len() <= 6 * text.len(),
            0 <= self.caret_after(text).x <= text.len() * 0x1_0000_0000,
            0 <= self.caret_after(text).line <= text.len(),
            match self.caret_after(text).previous {
                Some(previous) => 0 <= previous < GLYPH_COUNT && self.caret_after(text).x >= self.advance(previous),
                None => true,
            },
        decreases text.len(),
    {
        if text.len() > 0 {
            let rest = text.drop_last();
            assert forall|i: int| 0 <= i < rest.len() implies #[trigger] rest[i] == '\n' || glyph_of(rest[i]) is Some by {
                assert(rest[i] == text[i]);
            }
            self.lemma_layout_bounds(rest);
            let before = self.caret_after(rest);
            assert(text[text.len() - 1] == text.last());
            match glyph_of(text.last()) {
                Some(g) => {
                    match before.previous {
                        Some(previous) => {
                            assert(self.advance(previous) + self.kern(previous, g) >= 0);
                        },
                        None => {},
                    }
                    assert(self.advance(g) >= 0);
                    assert(self.advance(g) <= i32::MAX);
                    match before.previous {
                        Some(previous) => {
                            assert(self.kern(previous, g) <= i32::MAX);
                        },
                        None => {},
                    }
                },
                None => {},
            }
        }
    }
}

/// The place of a character in the atlas, if it has one.
pub fn glyph_index(c: char) -> (g: Option<usize>)
    ensures
        match g {
            Some(g) => glyph_of(c) == Some(g as int),
            None => glyph_of(c) is None,
        },
{
    if FIRST_GLYPH <= c && c <= LAST_GLYPH {
        Some((c as u32 - FIRST_GLYPH as u32) as usize)
    } else {
        None
    }
}

/// Lays `text` out from the top left and returns its vertices, or `None` when the
/// text holds a character that is neither in the atlas nor a newline, or more
/// than `MAX_TEXT_CHARS` characters.
pub fn layout_text(metrics: &FontMetrics, starts: &Vec<u64>, text: &str) -> (verts: Option<Vec<TextQuadVert>>)
    requires
        metrics.valid(),
        starts@ == metrics.glyph_starts(),
        metrics.glyphs_width() <= u32::MAX,
    ensures
        verts is Some <==> supported(text@) && text@.len() <= MAX_TEXT_CHARS,
        verts is Some ==> verts->0@ == metrics.text_quads(text@),
{
    let mut verts: Vec<TextQuadVert> = Vec::new();
    let mut x: i64 = 0;
    let mut line: i64 = 0;
    let mut previous: Option<usize> = None;
    let mut count: u32 = 0;
    for c in iter: text.chars()
        invariant
            metrics.valid(),
            starts@ == metrics.glyph_starts(),
            metrics.glyphs_width() <= u32::MAX,
            iter.seq() == text@,
            count == iter.index(),
            count <= MAX_TEXT_CHARS,
            supported(text@.take(count as int)),
            verts@ == metrics.text_quads(text@.take(count as int)),
            x == metrics.caret_after(text@.take(count as int)).x,
            line == metrics.caret_after(text@.take(count as int)).line,
            match previous {
                Some(p) => metrics.caret_after(text@.take(count as int)).previous == Some(p as int),
                None => metrics.caret_after(text@.take(count as int)).previous is None,
            },
    {
        let ghost done = text@.take(count as int);
        let ghost next = text@.take(count + 1);
        proof {
            assert(next.drop_last() =~= done);
            assert(next.last() == c);
            metrics.lemma_layout_bounds(done);
        }
        if count >= MAX_TEXT_CHARS {
            return None;
        }
        match glyph_index(c) {
            Some(g) => {
                proof {
                    metrics.lemma_glyph_starts_ordered(g as int);
                    assert(starts@[g as int] == metrics.glyph_starts()[g as int]);
                    assert(starts@[g + 1] == metrics.glyph_starts()[g + 1]);
                }
                let pen: i64 = match previous {
                    Some(p) => x + metrics.kerning[p * GLYPH_COUNT + g] as i64,
                    None => x,
                };
                let u0: u64 = starts[g];
                let u1: u64 = starts[g + 1];
                let v1: i64 = (metrics.height as i64 + (SUBPIXELS - 1)) / SUBPIXELS;
                let x1: i64 = pen + ((u1 - u0) as i64) * SUBPIXELS;
                assert(0 <= line * metrics.height <= 0x3fff_ffff * 0x7fff_ffff) by (nonlinear_arith)
                    requires
                        0 <= line <= 0x3fff_ffff,
                        0 < metrics.height <= 0x7fff_ffff,
                ;
                let y0: i64 = line * (metrics.height as i64);
                let y1: i64 = y0 + v1 * SUBPIXELS;
                let white: [u8; 4] = [255, 255, 255, 255];
                verts.push(TextQuadVert { v_position: [pen, y0], v_color: white, v_uv: [u0 as u32, 0] });
                verts.push(TextQuadVert { v_position: [pen, y1], v_color: white, v_uv: [u0 as u32, v1 as u32] });
                verts.push(TextQuadVert { v_position: [x1, y0], v_color: white, v_uv: [u1 as u32, 0] });
                verts.push(TextQuadVert { v_position: [x1, y0], v_color: white, v_uv: [u1 as u32, 0] });
                verts.push(TextQuadVert { v_position: [pen, y1], v_color: white, v_uv: [u0 as u32, v1 as u32] });
                verts.push(TextQuadVert { v_position: [x1, y1], v_color: white, v_uv: [u1 as u32, v1 as u32] });
                x = pen + metrics.advances[g] as i64;
                previous = Some(g);
                proof {
                    let before = metrics.caret_after(done);
                    assert(verts@ =~= metrics.text_quads(done) + metrics.glyph_quad(before, g as int));
                }
            },
            None => {
                if c != '\n' {
                    proof {
                        assert(text@[count as int] == c);
                    }
                    return None;
                }
                x = 0;
                line = line + 1;
                previous = None;
                proof {
                    assert(verts@ =~= metrics.text_quads(done) + Seq::<TextQuadVert>::empty());
                }
            },
        }
        count = count + 1;
        proof {
            assert forall|i: int| 0 <= i < next.len() implies #[trigger] next[i] == '\n' || glyph_of(next[i]) is Some by {
                if i < done.len() {
                    assert(next[i] == done[i]);
                }
            }
        }
    }
    proof {
        assert(text@.take(count as int) =~= text@);
    }
    Some(verts)
}

/// The commands of the text overlay against one framebuffer: one render pass that
/// keeps what was drawn before and draws the text vertices over it.
pub open spec fn text_script(framebuffer: Framebuffer, vertex_count: u32) -> Seq<Command> {
    seq![
        Command::BeginRenderPass { framebuffer, clear: None },
        Command::BindDescriptorSets { first_set: 0, sets: [DescriptorSetId::TextMvp, DescriptorSetId::TextFont] },
        Command::BindPipelineGraphics { pipeline: PipelineId::Text },
        Command::BindVertexBuffers { first_binding: 0, buffer: VertexBufferId::Text },
        Command::Draw { vertex_count, instance_count: 1, first_vertex: 0, first_instance: 0 },
        Command::EndRenderPass,
    ]
}

/// The state of the text pipeline for a viewport: a triangle list, alpha-blended.
pub open spec fn text_pipeline(viewport: Viewport) -> GraphicsPipeline {
    GraphicsPipeline { topology: PrimitiveTopology::TriangleList, viewport, line_width: 2, blend_alpha: true }
}

/// A vertex of the placeholder quad.
pub open spec fn placeholder_vertex(x: int, y: int, color: [u8; 4], u: u32, v: u32) -> TextQuadVert {
    TextQuadVert { v_position: [x as i64, y as i64], v_color: color, v_uv: [u, v] }
}

/// The quad that the overlay starts with, before any text is registered: the
/// middle half of the viewport in each direction, textured with the whole atlas,
/// white but for a red first corner and a blue last one.
pub open spec fn placeholder_quad(viewport: Viewport, atlas_width: u32, atlas_height: u32) -> Seq<TextQuadVert> {
    let x0 = 16 * viewport.dimensions.width;
    let x1 = 48 * viewport.dimensions.width;
    let y0 = 16 * viewport.dimensions.height;
    let y1 = 48 * viewport.dimensions.height;
    let white: [u8; 4] = [255u8, 255u8, 255u8, 255u8];
    seq![
        placeholder_vertex(x0, y0, [255u8, 0u8, 0u8, 255u8], 0, 0),
        placeholder_vertex(x0, y1, white, 0, atlas_height),
        placeholder_vertex(x1, y0, white, atlas_width, 0),
        placeholder_vertex(x1, y0, white, atlas_width, 0),
        placeholder_vertex(x0, y1, white, 0, atlas_height),
        placeholder_vertex(x1, y1, [0u8, 0u8, 255u8, 255u8], atlas_width, atlas_height),
    ]
}

/// Tells whether an atlas can be made for the metrics: they are valid, and an
/// image that exceeds the row of glyphs by the margin can be addressed.
pub open spec fn atlas_fits(metrics: &FontMetrics) -> bool {
    &&& metrics.valid()
    &&& metrics.glyphs_width() + ATLAS_MARGIN <= u32::MAX
    &&& addressable(
        (metrics.glyphs_width() + ATLAS_MARGIN) as u32,
        (metrics.glyph_height() + ATLAS_MARGIN) as u32,
    )
}

/// The text overlay: an atlas of rasterised glyphs and the quads of the
/// registered texts.
pub struct TextRenderer {
    text_graphics_pipeline: GraphicsPipeline,
    command_buffers: Vec<CommandBuffer>,
    text_vert_buffer: Vec<TextQuadVert>,
    metrics: FontMetrics,
    atlas: GlyphAtlas,
    glyph_height: u32,
    glyph_start_pixels: Vec<u64>,
}

impl TextRenderer {
    /// The vertices of all registered texts, in the order of registration.
    pub closed spec fn vertices(&self) -> Seq<TextQuadVert> {
        self.text_vert_buffer@
    }

    /// The metrics of the font.
    pub closed spec fn metrics(&self) -> &FontMetrics {
        &self.metrics
    }

    /// The atlas.
    pub closed spec fn atlas(&self) -> &GlyphAtlas {
        &self.atlas
    }

    /// The state of the text pipeline.
    pub closed spec fn pipeline(&self) -> GraphicsPipeline {
        self.text_graphics_pipeline
    }

    /// The height of a glyph in pixels.
    pub closed spec fn glyph_height(&self) -> u32 {
        self.glyph_height
    }

    /// The pixel columns at which the glyphs start in the atlas.
    pub closed spec fn glyph_start_pixels(&self) -> Seq<u64> {
        self.glyph_start_pixels@
    }

    /// Tells whether this overlay shows what `other` shows: the same text
    /// vertices, font metrics, atlas and pipeline.
    pub open spec fn same_content(&self, other: &TextRenderer) -> bool {
        &&& self.vertices() == other.vertices()
        &&& *self.metrics() == *other.metrics()
        &&& *self.atlas() == *other.atlas()
        &&& self.glyph_height() == other.glyph_height()
        &&& self.glyph_start_pixels() == other.glyph_start_pixels()
        &&& self.pipeline() == other.pipeline()
    }

    /// What rebuilding the pipeline for the context makes of the overlay `before`:
    /// the pipeline is that of the context's viewport, the rest is as it was.
    pub open spec fn is_rebuild_of(&self, before: &TextRenderer, render_context: &RendererContext) -> bool {
        &&& self.vertices() == before.vertices()
        &&& *self.metrics() == *before.metrics()
        &&& *self.atlas() == *before.atlas()
        &&& self.glyph_height() == before.glyph_height()
        &&& self.glyph_start_pixels() == before.glyph_start_pixels()
        &&& self.pipeline() == text_pipeline(render_context.viewport())
    }

    /// What holds of the overlay whether or not its cache is up to date.
    closed spec fn settled(&self) -> bool {
        &&& atlas_fits(&self.metrics)
        &&& self.glyph_start_pixels@ == self.metrics.glyph_starts()
        &&& self.glyph_height == self.metrics.glyph_height()
        &&& self.atlas.wf()
        &&& self.atlas.width() == self.metrics.glyphs_width() + ATLAS_MARGIN
        &&& self.atlas.height() == self.metrics.glyph_height() + ATLAS_MARGIN
        &&& self.text_vert_buffer@.len() <= u32::MAX
        &&& self.text_graphics_pipeline == text_pipeline(self.text_graphics_pipeline.viewport)
    }

    /// The overlay for a font with the given metrics, built for the context as it
    /// is: a transparent atlas that exceeds the row of glyphs by the margin in
    /// both directions, the start column of every glyph, and the placeholder quad
    /// in place of text. Fails when no atlas can be made for the metrics.
    pub fn new(render_context: &RendererContext, metrics: FontMetrics) -> (overlay: Result<Self, RendererError>)
        requires
            render_context.wf(),
        ensures
            overlay is Ok <==> atlas_fits(&metrics),
            match overlay {
                Ok(overlay) => {
                    &&& overlay.wf()
                    &&& *overlay.metrics() == metrics
                    &&& overlay.glyph_height() == metrics.glyph_height()
                    &&& overlay.glyph_start_pixels() == metrics.glyph_starts()
                    &&& overlay.atlas().wf()
                    &&& overlay.atlas().width() == metrics.glyphs_width() + ATLAS_MARGIN
                    &&& overlay.atlas().height() == metrics.glyph_height() + ATLAS_MARGIN
                    &&& overlay.atlas().pixels() == Seq::new(
                        (overlay.atlas().width() * overlay.atlas().height()) as nat,
                        |i: int| crate::atlas::RgbaPixel { color: [0u8, 0u8, 0u8, 0u8] },
                    )
                    &&& overlay.vertices() == placeholder_quad(
                        render_context.viewport(),
                        overlay.atlas().width(),
                        overlay.atlas().height(),
                    )
                    &&& overlay.pipeline() == text_pipeline(render_context.viewport())
                    &&& overlay.pipeline_viewport() == render_context.viewport()
                    &&& overlay.command_buffers() == recorded_against(&overlay, render_context.framebuffers())
                },
                Err(error) => error == RendererError::FAIL,
            },
    {
        if !metrics.is_valid() {
            return Err(RendererError::FAIL);
        }
        let glyph_start_pixels = metrics.glyph_start_pixels();
        proof {
            metrics.lemma_glyph_starts_ordered(0);
            metrics.lemma_glyph_positions(GLYPH_COUNT - 1);
            assert(metrics.advance(GLYPH_COUNT - 1) <= i32::MAX);
            assert(glyph_start_pixels@[GLYPH_COUNT as int] == metrics.glyph_starts()[GLYPH_COUNT as int]);
        }
        let glyphs_width: u64 = glyph_start_pixels[GLYPH_COUNT];
        let glyph_height: u32 = ((metrics.height as i64 + (SUBPIXELS - 1)) / SUBPIXELS) as u32;
        if glyphs_width > (u32::MAX - ATLAS_MARGIN) as u64 {
            return Err(RendererError::FAIL);
        }
        let width: u32 = glyphs_width as u32 + ATLAS_MARGIN;
        let height: u32 = glyph_height + ATLAS_MARGIN;
        proof {
            assert(width == metrics.glyphs_width() + ATLAS_MARGIN);
            assert(height == metrics.glyph_height() + ATLAS_MARGIN);
        }
        let atlas = match GlyphAtlas::new(width, height) {
            Some(atlas) => atlas,
            None => {
                return Err(RendererError::FAIL);
            },
        };
        let text_vert_buffer = Self::create_placeholder_quad(render_context.get_viewport(), width, height);
        let text_graphics_pipeline = Self::create_text_pipeline(render_context);
        let command_buffers = Self::create_text_cmd_bufs(render_context, text_vert_buffer.len() as u32);
        let overlay = TextRenderer {
            text_graphics_pipeline,
            command_buffers,
            text_vert_buffer,
            metrics,
            atlas,
            glyph_height,
            glyph_start_pixels,
        };
        proof {
            assert(overlay.command_buffers() =~= recorded_against(&overlay, render_context.framebuffers()));
        }
        Ok(overlay)
    }

    fn create_placeholder_quad(viewport: &Viewport, atlas_width: u32, atlas_height: u32) -> (verts: Vec<TextQuadVert>)
        ensures
            verts@ == placeholder_quad(*viewport, atlas_width, atlas_height),
    {
        let x0: i64 = 16 * (viewport.dimensions.width as i64);
        let x1: i64 = 48 * (viewport.dimensions.width as i64);
        let y0: i64 = 16 * (viewport.dimensions.height as i64);
        let y1: i64 = 48 * (viewport.dimensions.height as i64);
        let white: [u8; 4] = [255, 255, 255, 255];
        let mut verts: Vec<TextQuadVert> = Vec::new();
        verts.push(TextQuadVert { v_position: [x0, y0], v_color: [255, 0, 0, 255], v_uv: [0, 0] });
        verts.push(TextQuadVert { v_position: [x0, y1], v_color: white, v_uv: [0, atlas_height] });
        verts.push(TextQuadVert { v_position: [x1, y0], v_color: white, v_uv: [atlas_width, 0] });
        verts.push(TextQuadVert { v_position: [x1, y0], v_color: white, v_uv: [atlas_width, 0] });
        verts.push(TextQuadVert { v_position: [x0, y1], v_color: white, v_uv: [0, atlas_height] });
        verts.push(TextQuadVert { v_position: [x1, y1], v_color: [0, 0, 255, 255], v_uv: [atlas_width, atlas_height] });
        assert(verts@ =~= placeholder_quad(*viewport, atlas_width, atlas_height));
        verts
    }

    /// What the invariant says of an overlay: an atlas can be made for its
    /// metrics and the atlas is that one, the start columns and the glyph height
    /// are those of the metrics, and the vertices fit one draw call.
    pub proof fn lemma_invariant(&self)
        requires
            self.wf(),
        ensures
            atlas_fits(self.metrics()),
            self.glyph_start_pixels() == self.metrics().glyph_starts(),
            self.glyph_height() == self.metrics().glyph_height(),
            self.atlas().wf(),
            self.atlas().width() == self.metrics().glyphs_width() + ATLAS_MARGIN,
            self.atlas().height() == self.metrics().glyph_height() + ATLAS_MARGIN,
            self.vertices().len() <= u32::MAX,
            self.pipeline() == text_pipeline(self.pipeline_viewport()),
    {
    }

    /// Takes one pixel of a rasterised glyph into the atlas: the pixel `(x, y)` of
    /// the glyph whose bounding box starts at `origin` receives `coverage`.
    /// Returns whether the pixel lies in the atlas; outside of it nothing changes.
    pub fn draw_glyph_pixel(&mut self, origin: (u32, u32), x: u32, y: u32, coverage: u8) -> (inside: bool)
        requires
            old(self).wf(),
        ensures
            final(self).wf(),
            inside == (origin.0 + x < old(self).atlas().width() && origin.1 + y < old(self).atlas().height()),
            final(self).atlas().width() == old(self).atlas().width(),
            final(self).atlas().height() == old(self).atlas().height(),
            final(self).atlas().pixels() == if inside {
                old(self).atlas().pixels().update(
                    old(self).atlas().offset((origin.0 + x) as u32, (origin.1 + y) as u32),
                    crate::atlas::white(
                        crate::atlas::accumulated(
                            old(self).atlas().pixels()[old(self).atlas().offset(
                                (origin.0 + x) as u32,
                                (origin.1 + y) as u32,
                            )].color[3],
                            coverage,
                        ),
                    ),
                )
            } else {
                old(self).atlas().pixels()
            },
            *final(self).metrics() == *old(self).metrics(),
            final(self).glyph_height() == old(self).glyph_height(),
            final(self).glyph_start_pixels() == old(self).glyph_start_pixels(),
            final(self).vertices() == old(self).vertices(),
            final(self).pipeline() == old(self).pipeline(),
            final(self).command_buffers() == old(self).command_buffers(),
    {
        let column = match origin.0.checked_add(x) {
            Some(column) => column,
            None => {
                return false;
            },
        };
        let row = match origin.1.checked_add(y) {
            Some(row) => row,
            None => {
                return false;
            },
        };
        self.atlas.accumulate(column, row, coverage)
    }

    /// Registers `input_str` for drawing and returns its quads.
    ///
    /// The text is laid out from the top left: one quad per glyph, textured with
    /// the glyph's columns of the atlas, each glyph placed by the kerning against
    /// the one before it and followed by its advance width; a newline takes the
    /// caret to the start of the next line. The quads join the vertices of the
    /// overlay, and the command buffers are recorded anew.
    ///
    /// Fails, and changes nothing, when the text holds a character that is neither
    /// in the atlas nor a newline, when it holds more than `MAX_TEXT_CHARS`
    /// characters, or when its vertices and those registered before no longer fit
    /// one draw call.
    pub fn add_text(&mut self, render_context: &RendererContext, input_str: &str) -> (object: Result<TextObject, RendererError>)
        requires
            old(self).wf(),
            render_context.wf(),
        ensures
            final(self).wf(),
            object is Ok <==> {
                &&& supported(input_str@)
                &&& input_str@.len() <= MAX_TEXT_CHARS
                &&& old(self).vertices().len() + old(self).metrics().text_quads(input_str@).len() <= u32::MAX
            },
            *final(self).metrics() == *old(self).metrics(),
            *final(self).atlas() == *old(self).atlas(),
            final(self).glyph_height() == old(self).glyph_height(),
            final(self).glyph_start_pixels() == old(self).glyph_start_pixels(),
            final(self).pipeline() == old(self).pipeline(),
            final(self).pipeline_viewport() == old(self).pipeline_viewport(),
            match object {
                Ok(object) => {
                    &&& object.verts@ == old(self).metrics().text_quads(input_str@)
                    &&& final(self).vertices() == old(self).vertices() + object.verts@
                    &&& final(self).command_buffers() == recorded_against(final(self), render_context.framebuffers())
                },
                Err(error) => {
                    &&& error == RendererError::FAIL
                    &&& final(self).vertices() == old(self).vertices()
                    &&& final(self).command_buffers() == old(self).command_buffers()
                },
            },
    {
        let verts = match layout_text(&self.metrics, &self.glyph_start_pixels, input_str) {
            Some(verts) => verts,
            None => {
                return Err(RendererError::FAIL);
            },
        };
        if verts.len() > u32::MAX as usize - self.text_vert_buffer.len() {
            return Err(RendererError::FAIL);
        }
        let mut i: usize = 0;
        while i < verts.len()
            invariant
                i <= verts.len(),
                self.text_vert_buffer@ == old(self).text_vert_buffer@ + verts@.take(i as int),
                self.text_graphics_pipeline == old(self).text_graphics_pipeline,
                self.metrics == old(self).metrics,
                self.atlas == old(self).atlas,
                self.glyph_height == old(self).glyph_height,
                self.glyph_start_pixels == old(self).glyph_start_pixels,
                self.command_buffers == old(self).command_buffers,
            decreases verts.len() - i,
        {
            self.text_vert_buffer.push(verts[i]);
            i = i + 1;
            assert(self.text_vert_buffer@ =~= old(self).text_vert_buffer@ + verts@.take(i as int));
        }
        assert(verts@.take(i as int) =~= verts@);
        self.record(render_context);
        Ok(TextObject { verts })
    }

    /// Records the command buffers against the context's framebuffers.
    fn record(&mut self, render_context: &RendererContext)
        requires
            old(self).settled(),
        ensures
            final(self).wf(),
            final(self).text_vert_buffer == old(self).text_vert_buffer,
            final(self).text_graphics_pipeline == old(self).text_graphics_pipeline,
            final(self).metrics == old(self).metrics,
            final(self).atlas == old(self).atlas,
            final(self).glyph_height == old(self).glyph_height,
            final(self).glyph_start_pixels == old(self).glyph_start_pixels,
            final(self).command_buffers() == record_each(
                render_context.framebuffers(),
                |framebuffer: Framebuffer| final(self).script(framebuffer),
            ),
    {
        self.command_buffers = Self::create_text_cmd_bufs(render_context, self.text_vert_buffer.len() as u32);
        assert(self.command_buffers() =~= record_each(
            render_context.framebuffers(),
            |framebuffer: Framebuffer| self.script(framebuffer),
        ));
    }

    fn create_text_pipeline(render_context: &RendererContext) -> (pipeline: GraphicsPipeline)
        ensures
            pipeline == text_pipeline(render_context.viewport()),
    {
        GraphicsPipeline {
            topology: PrimitiveTopology::TriangleList,
            viewport: *render_context.get_viewport(),
            line_width: 2,
            blend_alpha: true,
        }
    }

    fn create_text_cmd_bufs(render_context: &RendererContext, vertex_count: u32) -> (command_buffers: Vec<CommandBuffer>)
        ensures
            recorded(command_buffers@) == record_each(
                render_context.framebuffers(),
                |framebuffer: Framebuffer| text_script(framebuffer, vertex_count),
            ),
    {
        let framebuffers = render_context.get_framebuffers();
        let mut command_buffers: Vec<CommandBuffer> = Vec::new();
        let mut i: usize = 0;
        while i < framebuffers.len()
            invariant
                i <= framebuffers.len(),
                command_buffers.len() == i,
                forall|j: int| 0 <= j < i ==> (#[trigger] command_buffers@[j])@ == (RecordedCommands {
                    framebuffer: framebuffers@[j],
                    commands: text_script(framebuffers@[j], vertex_count),
                }),
            decreases framebuffers.len() - i,
        {
            let framebuffer = framebuffers[i];
            let mut commands: Vec<Command> = Vec::new();
            commands.push(Command::BeginRenderPass { framebuffer, clear: None });
            commands.push(
                Command::BindDescriptorSets { first_set: 0, sets: [DescriptorSetId::TextMvp, DescriptorSetId::TextFont] },
            );
            commands.push(Command::BindPipelineGraphics { pipeline: PipelineId::Text });
            commands.push(Command::BindVertexBuffers { first_binding: 0, buffer: VertexBufferId::Text });
            commands.push(Command::Draw { vertex_count, instance_count: 1, first_vertex: 0, first_instance: 0 });
            commands.push(Command::EndRenderPass);
            assert(commands@ =~= text_script(framebuffer, vertex_count));
            command_buffers.push(CommandBuffer { framebuffer, commands });
            i = i + 1;
        }
        assert(recorded(command_buffers@) =~= record_each(
            render_context.framebuffers(),
            |framebuffer: Framebuffer| text_script(framebuffer, vertex_count),
        ));
        command_buffers
    }

    /// The state of the text pipeline.
    pub fn get_pipeline(&self) -> (pipeline: &GraphicsPipeline)
        ensures
            *pipeline == self.pipeline(),
    {
        &self.text_graphics_pipeline
    }

    /// The atlas.
    pub fn get_atlas(&self) -> (atlas: &GlyphAtlas)
        ensures
            atlas == self.atlas(),
    {
        &self.atlas
    }

    /// The vertices of all registered texts.
    pub fn get_vertices(&self) -> (vertices: &Vec<TextQuadVert>)
        ensures
            vertices@ == self.vertices(),
    {
        &self.text_vert_buffer
    }

    /// The height of a glyph in pixels.
    pub fn get_glyph_height(&self) -> (height: u32)
        ensures
            height == self.glyph_height(),
    {
        self.glyph_height
    }

    /// The pixel columns at which the glyphs start in the atlas, with the end of
    /// the row last.
    pub fn get_glyph_start_pixels(&self) -> (starts: &Vec<u64>)
        ensures
            starts@ == self.glyph_start_pixels(),
    {
        &self.glyph_start_pixels
    }
}

impl Renderer for TextRenderer {
    /// The atlas and the start columns are those of the metrics, the vertices fit
    /// one draw call, and every cached command buffer holds the overlay's present
    /// script for its framebuffer.
    closed spec fn wf(&self) -> bool {
        &&& self.settled()
        &&& forall|i: int| 0 <= i < self.command_buffers@.len() ==> (#[trigger] recorded(self.command_buffers@)[i]).commands
                == self.script(recorded(self.command_buffers@)[i].framebuffer)
    }

    open spec fn script(&self, framebuffer: Framebuffer) -> Seq<Command> {
        text_script(framebuffer, self.vertices().len() as u32)
    }

    closed spec fn command_buffers(&self) -> Seq<RecordedCommands> {
        recorded(self.command_buffers@)
    }

    closed spec fn pipeline_viewport(&self) -> Viewport {
        self.text_graphics_pipeline.viewport
    }

    fn create_pipeline(&self, render_context: &RendererContext) -> (pipeline: GraphicsPipeline)
        ensures
            pipeline == text_pipeline(render_context.viewport()),
    {
        Self::create_text_pipeline(render_context)
    }

    fn update_command_buffers(&mut self, render_context: &RendererContext)
        ensures
            final(self).same_content(old(self)),
    {
        self.record(render_context);
    }

    fn update_pipeline(&mut self, render_context: &RendererContext)
        ensures
            final(self).is_rebuild_of(old(self), render_context),
    {
        self.text_graphics_pipeline = Self::create_text_pipeline(render_context);
        self.record(render_context);
    }

    fn execute_cmd_buf(&self, image_i: u32) -> (command_buffer: &CommandBuffer) {
        &self.command_buffers[image_i as usize]
    }

    fn is_current(&self, render_context: &RendererContext) -> (current: bool) {
        let viewport = render_context.get_viewport();
        let same_viewport = self.text_graphics_pipeline.viewport.dimensions.width == viewport.dimensions.width
            && self.text_graphics_pipeline.viewport.dimensions.height == viewport.dimensions.height;
        let same_targets = targets_match(&self.command_buffers, render_context.get_framebuffers());
        proof {
            lemma_record_each_by_targets(
                self.command_buffers(),
                render_context.framebuffers(),
                |framebuffer: Framebuffer| self.script(framebuffer),
            );
        }
        same_viewport && same_targets
    }
}

} // verus!
