//! The widget's natural size and the draw primitives of one frame.
use vstd::prelude::*;
use crate::geometry::{Rect, Padding, div_toward_zero, trunc_div};
use crate::state::{State, Dragging, FRACTION_ONE, TerminalBox, state_ok};

verus! {

/// Width of the scrollbar gutter, in whole pixels.
pub const SCROLLBAR_WIDTH: i64 = 8;

/// Thumb opacity in thousandths while it is dragged, and at rest.
pub const THUMB_ALPHA_DRAGGED: u16 = 500;
pub const THUMB_ALPHA_RESTING: u16 = 250;

/// Largest side of a widget, in whole pixels.
pub const WIDGET_BOUND: i64 = 0x100_0000;

/// Largest side of a content box, in whole pixels.
pub const VIEW_BOUND: i64 = 0x400_0000;

/// The content box of a frame, in whole pixels.
#[derive(Clone, Copy, Debug, PartialEq, Eq)]
pub struct ViewBox {
    pub width: i64,
    pub height: i64,
}

/// One laid-out glyph: its cell's left edge, width and line top relative to
/// the content origin (thousandths of a pixel), and its attribute metadata,
/// which holds its background color.
#[derive(Clone, Copy, Debug, PartialEq, Eq)]
pub struct GlyphCell {
    pub x: i64,
    pub w: i64,
    pub line_top: i64,
    pub metadata: usize,
}

/// One draw primitive; positions are relative to the content origin, in
/// thousandths of a pixel.
#[derive(Clone, Copy, Debug, PartialEq, Eq)]
pub enum DrawOp {
    /// A solid fill with a packed 32-bit color.
    Fill { rect: Rect, color: u32 },
    /// The terminal's shaped text, clipped to `clip`.
    Text { clip: Rect },
    /// The scrollbar thumb in white at opacity `alpha` thousandths.
    Thumb { rect: Rect, alpha: u16 },
}

/// Total on-screen rows over all laid-out lines.
pub open spec fn total_rows(counts: Seq<u32>) -> int
    decreases counts.len(),
{
    if counts.len() == 0 { 0 } else { total_rows(counts.drop_last()) + counts.last() as int }
}

impl TerminalBox {
    /// The natural size: all the available width, and the height of every
    /// on-screen row, given the row count of each laid-out line.
    pub fn layout(&self, max_width: i64, row_counts: &Vec<u32>, line_height: u32) -> (r: (i64, u128))
        ensures
            r.0 == max_width,
            r.1 == total_rows(row_counts@) * line_height,
    {
        let mut rows: u128 = 0;
        let mut i: usize = 0;
        while i < row_counts.len()
            invariant
                i <= row_counts@.len(),
                rows == total_rows(row_counts@.take(i as int)),
                rows <= i * 0xFFFF_FFFFu128,
            decreases row_counts@.len() - i,
        {
            assert(row_counts@.take(i as int + 1).drop_last() == row_counts@.take(i as int));
            rows = rows + row_counts[i] as u128;
            i = i + 1;
        }
        assert(row_counts@.take(i as int) == row_counts@);
        assert(rows * line_height <= 0xFFFF_FFFF_FFFF_FFFFu128 * 0xFFFF_FFFFu128 * 0xFFFF_FFFFu128)
            by (nonlinear_arith)
            requires
                rows <= i * 0xFFFF_FFFFu128,
                i <= 0xFFFF_FFFF_FFFF_FFFFu128,
                line_height <= 0xFFFF_FFFFu128,
        ;
        (max_width, rows * line_height as u128)
    }
}

/// Width and height of the content box for a widget of `bounds` inside
/// `viewport`: the smaller of the two sizes, in whole pixels, less the padding
/// and, across, the scrollbar gutter.
pub open spec fn content_size(viewport: Rect, bounds: Rect, padding: Padding) -> (int, int) {
    let vw = div_toward_zero(viewport.width as int, 1000);
    let bw = div_toward_zero(bounds.width as int, 1000);
    let vh = div_toward_zero(viewport.height as int, 1000);
    let bh = div_toward_zero(bounds.height as int, 1000);
    (
        (if vw < bw { vw } else { bw }) - div_toward_zero(padding.left + padding.right, 1000)
            - SCROLLBAR_WIDTH,
        (if vh < bh { vh } else { bh }) - div_toward_zero(padding.top + padding.bottom, 1000),
    )
}

/// The content box, or `None` when either side is not positive.
pub open spec fn view_box(viewport: Rect, bounds: Rect, padding: Padding) -> Option<ViewBox> {
    let (w, h) = content_size(viewport, bounds, padding);
    if w <= 0 || h <= 0 {
        None
    } else {
        Some(ViewBox { width: w as i64, height: h as i64 })
    }
}

/// A content box that a frame can be composed for.
pub open spec fn view_ok(v: ViewBox) -> bool {
    0 < v.width <= VIEW_BOUND && 0 < v.height <= VIEW_BOUND
}

fn whole_px(milli: i64) -> (r: i64)
    requires
        milli > i64::MIN,
    ensures
        r == div_toward_zero(milli as int, 1000),
        -0x40_0000_0000_0000 < r < 0x40_0000_0000_0000,
{
    proof {
        crate::geometry::lemma_trunc_remainder(milli as int, 1000);
    }
    trunc_div(milli, 1000)
}

impl TerminalBox {
    /// Computes the content box of a frame, or `None` for a degenerate one.
    pub fn plan_view(&self, viewport: &Rect, bounds: &Rect) -> (r: Option<ViewBox>)
        requires
            viewport.width > i64::MIN,
            viewport.height > i64::MIN,
            0 <= bounds.width <= WIDGET_BOUND * 1000,
            0 <= bounds.height <= WIDGET_BOUND * 1000,
        ensures
            r == view_box(*viewport, *bounds, self.padding),
            r matches Some(v) ==> view_ok(v),
    {
        let vw = whole_px(viewport.width);
        let bw = whole_px(bounds.width);
        let vh = whole_px(viewport.height);
        let bh = whole_px(bounds.height);
        let pw = whole_px(self.padding.left as i64 + self.padding.right as i64);
        let ph = whole_px(self.padding.top as i64 + self.padding.bottom as i64);
        proof {
            vstd::arithmetic::div_mod::lemma_div_is_ordered(bounds.width as int, WIDGET_BOUND * 1000, 1000);
            vstd::arithmetic::div_mod::lemma_div_is_ordered(bounds.height as int, WIDGET_BOUND * 1000, 1000);
            vstd::arithmetic::div_mod::lemma_div_by_multiple(WIDGET_BOUND as int, 1000);
            crate::geometry::lemma_trunc_remainder(self.padding.left as i64 + self.padding.right as i64, 1000);
            crate::geometry::lemma_trunc_remainder(self.padding.top as i64 + self.padding.bottom as i64, 1000);
        }
        let w = (if vw < bw { vw } else { bw }) - pw - SCROLLBAR_WIDTH;
        let h = (if vh < bh { vh } else { bh }) - ph;
        if w <= 0 || h <= 0 {
            None
        } else {
            Some(ViewBox { width: w, height: h })
        }
    }
}

/// The whole content box, relative to its origin.
pub open spec fn content_rect(v: ViewBox) -> Rect {
    Rect { x: 0, y: 0, width: (v.width * 1000) as i64, height: (v.height * 1000) as i64 }
}

/// The thumb: in the gutter right of the content, spanning the scrollbar's
/// fractions of the content height.
pub open spec fn thumb_rect(v: ViewBox, scrollbar: (i64, i64)) -> Rect {
    let top = div_toward_zero(scrollbar.0 * v.height * 1000, FRACTION_ONE as int);
    let bottom = div_toward_zero(scrollbar.1 * v.height * 1000, FRACTION_ONE as int);
    Rect {
        x: (v.width * 1000) as i64,
        y: top as i64,
        width: (SCROLLBAR_WIDTH * 1000) as i64,
        height: (bottom - top) as i64,
    }
}

/// A fill over each glyph cell whose background differs from the default.
pub open spec fn glyph_fills(glyphs: Seq<GlyphCell>, default_bg: usize, line_height: i64) -> Seq<DrawOp>
    decreases glyphs.len(),
{
    if glyphs.len() == 0 {
        Seq::empty()
    } else {
        let g = glyphs.last();
        glyph_fills(glyphs.drop_last(), default_bg, line_height) + if g.metadata != default_bg {
            seq![DrawOp::Fill {
                rect: Rect { x: g.x, y: g.line_top, width: g.w, height: line_height },
                color: g.metadata as u32,
            }]
        } else {
            Seq::empty()
        }
    }
}

/// The primitives of a frame, back to front: the default background, the
/// glyph backgrounds, the text, the thumb.
pub open spec fn frame_ops(
    v: ViewBox,
    dragging_thumb: bool,
    default_bg: usize,
    glyphs: Seq<GlyphCell>,
    line_height: i64,
    scrollbar: (i64, i64),
) -> Seq<DrawOp> {
    seq![DrawOp::Fill { rect: content_rect(v), color: default_bg as u32 }]
        + glyph_fills(glyphs, default_bg, line_height)
        + seq![
            DrawOp::Text { clip: content_rect(v) },
            DrawOp::Thumb {
                rect: thumb_rect(v, scrollbar),
                alpha: if dragging_thumb { THUMB_ALPHA_DRAGGED } else { THUMB_ALPHA_RESTING },
            },
        ]
}

/// The primitives of a frame with content box `view`: none without one.
pub open spec fn frame_of(
    view: Option<ViewBox>,
    dragging_thumb: bool,
    default_bg: usize,
    glyphs: Seq<GlyphCell>,
    line_height: i64,
    scrollbar: (i64, i64),
) -> Seq<DrawOp> {
    match view {
        Some(v) => frame_ops(v, dragging_thumb, default_bg, glyphs, line_height, scrollbar),
        None => Seq::empty(),
    }
}

/// A widget whose content box has a side that is not positive gets no
/// content box, and the frame drawn for it holds no primitive at all,
/// whatever the glyphs, colors and scrollbar.
pub proof fn lemma_degenerate_box_draws_nothing(
    viewport: Rect,
    bounds: Rect,
    padding: Padding,
    dragging_thumb: bool,
    default_bg: usize,
    glyphs: Seq<GlyphCell>,
    line_height: i64,
    scrollbar: (i64, i64),
)
    requires
        content_size(viewport, bounds, padding).0 <= 0 || content_size(viewport, bounds, padding).1 <= 0,
    ensures
        view_box(viewport, bounds, padding) is None,
        frame_of(view_box(viewport, bounds, padding), dragging_thumb, default_bg, glyphs, line_height, scrollbar).len() == 0,
{
}

/// Whether a scrollbar drag is under way.
pub open spec fn drags_thumb(s: State) -> bool {
    s.dragging matches Some(Dragging::Scrollbar { .. })
}

impl State {
    /// Composes one frame. With no content box nothing is drawn and nothing
    /// changes; otherwise the frame's primitives are returned and the scale
    /// factor and the thumb's rectangle are kept for the events to come.
    pub fn draw(
        &mut self,
        view: Option<ViewBox>,
        scale_milli: u16,
        default_bg: usize,
        glyphs: &Vec<GlyphCell>,
        line_height: i64,
        scrollbar: (i64, i64),
    ) -> (r: Vec<DrawOp>)
        requires
            state_ok(*old(self)),
            view matches Some(v) ==> view_ok(v),
            0 <= scrollbar.0 <= FRACTION_ONE,
            0 <= scrollbar.1 <= FRACTION_ONE,
        ensures
            r@ == frame_of(view, drags_thumb(*old(self)), default_bg, glyphs@, line_height, scrollbar),
            view is None ==> *final(self) == *old(self),
            view matches Some(v) ==> *final(self) == (State {
                scale_milli,
                scrollbar_rect: thumb_rect(v, scrollbar),
                ..*old(self)
            }),
            state_ok(*final(self)),
    {
        let v = match view {
            None => {
                let r: Vec<DrawOp> = Vec::new();
                assert(r@ =~= Seq::<DrawOp>::empty());
                return r;
            },
            Some(v) => v,
        };
        self.scale_milli = scale_milli;
        let content = Rect { x: 0, y: 0, width: v.width * 1000, height: v.height * 1000 };
        let mut ops: Vec<DrawOp> = Vec::new();
        ops.push(DrawOp::Fill { rect: content, color: default_bg as u32 });
        let ghost head = seq![DrawOp::Fill { rect: content_rect(v), color: default_bg as u32 }];
        let mut i: usize = 0;
        while i < glyphs.len()
            invariant
                i <= glyphs@.len(),
                ops@ == head + glyph_fills(glyphs@.take(i as int), default_bg, line_height),
            decreases glyphs@.len() - i,
        {
            let g = glyphs[i];
            assert(glyphs@.take(i as int + 1).drop_last() == glyphs@.take(i as int));
            if g.metadata != default_bg {
                ops.push(DrawOp::Fill {
                    rect: Rect { x: g.x, y: g.line_top, width: g.w, height: line_height },
                    color: g.metadata as u32,
                });
            }
            proof {
                let fills = glyph_fills(glyphs@.take(i as int + 1), default_bg, line_height);
                assert(glyphs@.take(i as int + 1).last() == g);
                assert(ops@ =~= head + fills);
            }
            i = i + 1;
        }
        assert(glyphs@.take(i as int) == glyphs@);
        ops.push(DrawOp::Text { clip: content });
        proof {
            assert(scrollbar.0 * v.height * 1000 <= FRACTION_ONE * VIEW_BOUND * 1000) by (nonlinear_arith)
                requires 0 <= scrollbar.0 <= FRACTION_ONE, 0 < v.height <= VIEW_BOUND;
            assert(scrollbar.1 * v.height * 1000 <= FRACTION_ONE * VIEW_BOUND * 1000) by (nonlinear_arith)
                requires 0 <= scrollbar.1 <= FRACTION_ONE, 0 < v.height <= VIEW_BOUND;
            assert(scrollbar.0 * v.height * 1000 >= 0) by (nonlinear_arith)
                requires 0 <= scrollbar.0, 0 < v.height;
            assert(scrollbar.1 * v.height * 1000 >= 0) by (nonlinear_arith)
                requires 0 <= scrollbar.1, 0 < v.height;
            vstd::arithmetic::div_mod::lemma_div_pos_is_pos(scrollbar.0 * v.height * 1000, FRACTION_ONE as int);
            vstd::arithmetic::div_mod::lemma_div_pos_is_pos(scrollbar.1 * v.height * 1000, FRACTION_ONE as int);
            vstd::arithmetic::div_mod::lemma_div_is_ordered(scrollbar.0 * v.height * 1000, FRACTION_ONE * VIEW_BOUND * 1000, FRACTION_ONE as int);
            vstd::arithmetic::div_mod::lemma_div_is_ordered(scrollbar.1 * v.height * 1000, FRACTION_ONE * VIEW_BOUND * 1000, FRACTION_ONE as int);
        }
        let top = trunc_div(scrollbar.0 * v.height * 1000, FRACTION_ONE);
        let bottom = trunc_div(scrollbar.1 * v.height * 1000, FRACTION_ONE);
        let thumb = Rect { x: v.width * 1000, y: top, width: SCROLLBAR_WIDTH * 1000, height: bottom - top };
        let alpha = match self.dragging {
            Some(Dragging::Scrollbar { .. }) => THUMB_ALPHA_DRAGGED,
            _ => THUMB_ALPHA_RESTING,
        };
        ops.push(DrawOp::Thumb { rect: thumb, alpha });
        self.scrollbar_rect = thumb;
        proof {
            assert(ops@ =~= frame_ops(v, drags_thumb(*old(self)), default_bg, glyphs@, line_height, scrollbar));
        }
        ops
    }
}

} // verus!
