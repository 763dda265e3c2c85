//! The flex layouter: inline boxes placed along the primary axis, wrapping
//! into new lines along the secondary axis, with merged spacing between them.

use vstd::prelude::*;
use crate::geometry::{anchor, anchor_of, generalized, LayoutAlignment, LayoutAxes, LayoutSpace};
use crate::layout::{Layout, LayoutAction, LayoutError, LayoutResult};
use crate::size::{Size, Size2D};
use crate::spacing::{requested, LastSpacing, SpacingKind};
use crate::stack::{child_in_range, gap_size, space_in_range, usable_general, MAX_EXTENT};

verus! {

/// The most boxes that one flex layouter takes.
pub const MAX_ITEMS: usize = 1048576;

/// What the flex layouter works with.
pub struct FlexContext {
    /// The space whose usable primary extent bounds each line.
    pub space: LayoutSpace,
    /// The axes: boxes go along the primary one, lines along the secondary one.
    pub axes: LayoutAxes,
    /// The alignment of the lines and of the finished box.
    pub alignment: LayoutAlignment,
    /// The spacing between two lines.
    pub flex_spacing: Size,
}

pub open spec fn flex_context_ok(ctx: &FlexContext) -> bool {
    &&& ctx.axes.wf()
    &&& space_in_range(ctx.space)
    &&& 0 <= ctx.flex_spacing.raw <= MAX_EXTENT
}

/// Whether the finished box takes the full usable primary extent.
pub open spec fn expands_primary(ctx: &FlexContext) -> bool {
    if ctx.axes.primary.horizontal() {
        ctx.space.expand.0
    } else {
        ctx.space.expand.1
    }
}

/// A box placed on a line, `offset` into it along the primary axis.
pub struct FlexItem {
    pub line: usize,
    pub offset: Size,
    pub layout: Layout,
}

/// The widest of the lines' primary extents (zero for no line).
pub open spec fn max_width(lines: Seq<Size2D>) -> int
    decreases lines.len(),
{
    if lines.len() == 0 {
        0
    } else {
        let w = max_width(lines.drop_last());
        if lines.last().x.raw > w {
            lines.last().x.raw as int
        } else {
            w
        }
    }
}

/// Where line `k` starts along the secondary axis.
pub open spec fn line_top(lines: Seq<Size2D>, k: int, spacing: int) -> int
    decreases k,
{
    if k <= 0 {
        0
    } else {
        line_top(lines, k - 1, spacing) + lines[k - 1].y.raw + spacing
    }
}

/// The extent of all lines and the spacing between them.
pub open spec fn total_height(lines: Seq<Size2D>, spacing: int) -> int {
    if lines.len() == 0 {
        0
    } else {
        line_top(lines, lines.len() - 1, spacing) + lines.last().y.raw
    }
}

/// The primary extent of the finished box.
pub open spec fn box_width(ctx: &FlexContext, lines: Seq<Size2D>) -> int {
    if expands_primary(ctx) {
        usable_general(ctx.axes, ctx.space).x.raw as int
    } else {
        max_width(lines)
    }
}

/// The dimensions of the finished box: its generalized extent turned back,
/// plus the padding.
pub open spec fn flex_dims(ctx: &FlexContext, lines: Seq<Size2D>) -> Size2D {
    let g = Size2D {
        x: Size { raw: box_width(ctx, lines) as i64 },
        y: Size { raw: total_height(lines, ctx.flex_spacing.raw as int) as i64 },
    };
    let s = generalized(ctx.axes, g);
    Size2D {
        x: Size { raw: (s.x.raw + ctx.space.padding.left.raw + ctx.space.padding.right.raw) as i64 },
        y: Size { raw: (s.y.raw + ctx.space.padding.top.raw + ctx.space.padding.bottom.raw) as i64 },
    }
}

/// Where a placed box goes: its line aligned within the box width by the
/// secondary alignment, its offset along the line, the line's top.
pub open spec fn item_position(ctx: &FlexContext, lines: Seq<Size2D>, item: FlexItem) -> Size2D {
    let w = box_width(ctx, lines);
    let p = anchor_of(ctx.axes.primary, w - lines[item.line as int].x.raw, ctx.alignment.secondary)
        + item.offset.raw;
    let q = line_top(lines, item.line as int, ctx.flex_spacing.raw as int);
    let phys = generalized(ctx.axes, Size2D { x: Size { raw: p as i64 }, y: Size { raw: q as i64 } });
    Size2D {
        x: Size { raw: (ctx.space.padding.left.raw + phys.x.raw) as i64 },
        y: Size { raw: (ctx.space.padding.top.raw + phys.y.raw) as i64 },
    }
}

/// The actions of the finished box: for each placed box, a move to its
/// position followed by its own actions.
pub open spec fn flex_actions(ctx: &FlexContext, lines: Seq<Size2D>, items: Seq<FlexItem>) -> Seq<LayoutAction>
    decreases items.len(),
{
    if items.len() == 0 {
        Seq::empty()
    } else {
        flex_actions(ctx, lines, items.drop_last()).push(
            LayoutAction::MoveAbsolute(item_position(ctx, lines, items.last())),
        ) + items.last().layout.actions@
    }
}

/// Arranges inline boxes into lines.
pub struct FlexLayouter {
    ctx: FlexContext,
    lines: Vec<Size2D>,
    line: Size2D,
    has_items: bool,
    items: Vec<FlexItem>,
    last_spacing: LastSpacing,
}

impl FlexLayouter {
    pub closed spec fn context(&self) -> &FlexContext {
        &self.ctx
    }

    /// The extents of the finished lines, in primary/secondary terms.
    pub closed spec fn lines(&self) -> Seq<Size2D> {
        self.lines@
    }

    /// The extent of the current line.
    pub closed spec fn line(&self) -> Size2D {
        self.line
    }

    /// Whether any box was placed.
    pub closed spec fn has_items(&self) -> bool {
        self.has_items
    }

    /// The boxes placed so far.
    pub closed spec fn items(&self) -> Seq<FlexItem> {
        self.items@
    }

    /// The spacing pending before the next box.
    pub closed spec fn pending_spacing(&self) -> LastSpacing {
        self.last_spacing
    }

    /// All lines: the finished ones, then the current one if it holds a box.
    pub open spec fn all_lines(&self) -> Seq<Size2D> {
        if self.has_items() {
            self.lines().push(self.line())
        } else {
            self.lines()
        }
    }

    pub closed spec fn wf(&self) -> bool {
        let u = usable_general(self.ctx.axes, self.ctx.space);
        &&& flex_context_ok(&self.ctx)
        &&& self.items@.len() <= MAX_ITEMS
        &&& self.lines@.len() + (if self.has_items { 1int } else { 0 }) <= self.items@.len()
        &&& forall|i: int| 0 <= i < self.lines@.len() ==> {
            &&& 0 <= #[trigger] self.lines@[i].x.raw <= 3 * MAX_EXTENT
            &&& 0 <= self.lines@[i].y.raw <= MAX_EXTENT
        }
        &&& 0 <= self.line.x.raw <= 3 * MAX_EXTENT
        &&& 0 <= self.line.y.raw <= MAX_EXTENT
        &&& forall|i: int| 0 <= i < self.items@.len() ==> {
            &&& #[trigger] self.items@[i].line <= self.lines@.len()
            &&& self.items@[i].line == self.lines@.len() ==> self.has_items
            &&& 0 <= self.items@[i].offset.raw <= 3 * MAX_EXTENT
        }
        &&& !self.has_items ==> self.last_spacing == LastSpacing::Hard(Size { raw: 0 })
        &&& !self.has_items ==> self.line.x.raw == 0 && self.line.y.raw == 0
        &&& match self.last_spacing {
            LastSpacing::Hard(s) => 0 <= s.raw <= MAX_EXTENT,
            LastSpacing::Soft(s, _) => 0 <= s.raw <= MAX_EXTENT,
            LastSpacing::Empty => true,
        }
    }

    /// A flex layouter with no box placed.
    pub fn new(ctx: FlexContext) -> (r: FlexLayouter)
        requires
            flex_context_ok(&ctx),
        ensures
            r.wf(),
            *r.context() == ctx,
            r.lines().len() == 0,
            !r.has_items(),
            r.items().len() == 0,
            r.pending_spacing() == LastSpacing::Hard(Size { raw: 0 }),
    {
        FlexLayouter {
            ctx,
            lines: Vec::new(),
            line: Size2D::zero(),
            has_items: false,
            items: Vec::new(),
            last_spacing: LastSpacing::Hard(Size::zero()),
        }
    }

    /// Requests spacing before the next box, merged with what is pending.
    pub fn add_spacing(&mut self, size: Size, kind: SpacingKind)
        requires
            old(self).wf(),
            0 <= size.raw <= MAX_EXTENT,
        ensures
            final(self).wf(),
            final(self).pending_spacing() == requested(old(self).pending_spacing(), size, kind),
            final(self).context() == old(self).context(),
            final(self).lines() == old(self).lines(),
            final(self).line() == old(self).line(),
            final(self).has_items() == old(self).has_items(),
            final(self).items() == old(self).items(),
    {
        self.last_spacing = self.last_spacing.request(size, kind);
    }

    /// Adds a box. It goes on the current line after the pending gap if the
    /// line's usable primary extent still holds it, else it starts a new line
    /// (the pending gap is dropped). A box wider than the usable primary
    /// extent fits on no line: nothing changes and an error is returned.
    pub fn add(&mut self, layout: Layout) -> (r: LayoutResult<()>)
        requires
            old(self).wf(),
            old(self).items().len() < MAX_ITEMS,
            child_in_range(generalized(old(self).context().axes, layout.dimensions)),
        ensures
            final(self).wf(),
            final(self).context() == old(self).context(),
            ({
                let ctx = old(self).context();
                let c = generalized(ctx.axes, layout.dimensions);
                let u = usable_general(ctx.axes, ctx.space);
                let line = old(self).line();
                let gap = gap_size(old(self).pending_spacing());
                let n = old(self).lines().len();
                &&& (r is Err <==> c.x.raw > u.x.raw)
                &&& r is Err ==> *final(self) == *old(self)
                &&& r is Ok ==> {
                    &&& final(self).has_items()
                    &&& final(self).pending_spacing() == LastSpacing::Empty
                    &&& line.x.raw + gap + c.x.raw <= u.x.raw ==> {
                        &&& final(self).lines() == old(self).lines()
                        &&& final(self).line().x.raw == line.x.raw + gap + c.x.raw
                        &&& final(self).line().y.raw == if c.y.raw > line.y.raw {
                            c.y.raw
                        } else {
                            line.y.raw
                        }
                        &&& final(self).items() == old(self).items().push(
                            FlexItem {
                                line: n as usize,
                                offset: Size { raw: (line.x.raw + gap) as i64 },
                                layout,
                            },
                        )
                    }
                    &&& line.x.raw + gap + c.x.raw > u.x.raw ==> {
                        &&& final(self).lines() == old(self).lines().push(line)
                        &&& final(self).line() == c
                        &&& final(self).items() == old(self).items().push(
                            FlexItem { line: (n + 1) as usize, offset: Size { raw: 0 }, layout },
                        )
                    }
                }
            }),
    {
        let axes = self.ctx.axes;
        let c = axes.generalize(layout.dimensions);
        let u = axes.generalize(self.ctx.space.usable());
        if c.x.raw > u.x.raw {
            return Err(LayoutError::new("the box is wider than a line"));
        }
        let gap: i64 = match self.last_spacing.pending() {
            Some(s) => s.raw,
            None => 0,
        };
        let n = self.lines.len();
        if self.line.x.raw + gap + c.x.raw <= u.x.raw {
            let offset: i64 = self.line.x.raw + gap;
            let high = if c.y.raw > self.line.y.raw {
                c.y
            } else {
                self.line.y
            };
            self.line = Size2D::new(Size::new(offset + c.x.raw), high);
            self.items.push(FlexItem { line: n, offset: Size::new(offset), layout });
        } else {
            self.lines.push(self.line);
            self.line = c;
            self.items.push(FlexItem { line: n + 1, offset: Size::zero(), layout });
        }
        self.has_items = true;
        self.last_spacing = LastSpacing::Empty;
        Ok(())
    }

    /// Finishes the last line and returns the box holding all lines.
    pub fn finish(self) -> (r: Layout)
        requires
            self.wf(),
        ensures
            r.dimensions == flex_dims(self.context(), self.all_lines()),
            r.baseline is None,
            r.alignment == self.context().alignment,
            r.actions@ == flex_actions(self.context(), self.all_lines(), self.items()),
    {
        let ghost all = self.all_lines();
        let ghost orig = self.items();
        let ctx = self.ctx;
        let axes = ctx.axes;
        let spacing: i64 = ctx.flex_spacing.raw;
        let mut lines = self.lines;
        if self.has_items {
            lines.push(self.line);
        }
        let n = lines.len();
        assert(lines@ == all);
        assert(forall|i: int| 0 <= i < n ==> 0 <= (#[trigger] lines@[i]).x.raw <= 3 * MAX_EXTENT && 0
            <= lines@[i].y.raw <= MAX_EXTENT);
        let u = axes.generalize(ctx.space.usable());
        let mut widest: i64 = 0;
        let mut i: usize = 0;
        while i < n
            invariant
                i <= n == lines@.len(),
                widest == max_width(lines@.take(i as int)),
                0 <= widest <= 3 * MAX_EXTENT,
                forall|j: int| 0 <= j < n ==> 0 <= (#[trigger] lines@[j]).x.raw <= 3 * MAX_EXTENT,
            decreases n - i,
        {
            assert(lines@.take(i + 1).drop_last() == lines@.take(i as int));
            if lines[i].x.raw > widest {
                widest = lines[i].x.raw;
            }
            i = i + 1;
        }
        assert(lines@.take(n as int) == lines@);
        let expand = if axes.primary.is_horizontal() {
            ctx.space.expand.0
        } else {
            ctx.space.expand.1
        };
        let width: i64 = if expand {
            u.x.raw
        } else {
            widest
        };
        let mut tops: Vec<i64> = Vec::new();
        tops.push(0);
        let mut top: i64 = 0;
        let mut k: usize = 0;
        while k < n
            invariant
                k <= n == lines@.len(),
                n <= MAX_ITEMS,
                tops@.len() == k + 1,
                forall|j: int| 0 <= j <= k ==> #[trigger] tops@[j] == line_top(lines@, j, spacing as int),
                forall|j: int| 0 <= j <= k ==> 0 <= #[trigger] tops@[j] <= j * 2199023255552,
                top == line_top(lines@, k as int, spacing as int),
                0 <= top <= k * 2199023255552,
                0 <= spacing <= MAX_EXTENT,
                forall|j: int| 0 <= j < n ==> 0 <= (#[trigger] lines@[j]).y.raw <= MAX_EXTENT,
            decreases n - k,
        {
            let y: i64 = lines[k].y.raw;
            assert(0 <= y <= MAX_EXTENT);
            top = top + y + spacing;
            tops.push(top);
            k = k + 1;
        }
        assert(forall|j: int| 0 <= j <= n ==> #[trigger] tops@[j] <= n * 2199023255552) by {
            assert forall|j: int| 0 <= j <= n implies #[trigger] tops@[j] <= n * 2199023255552 by {
                assert(j * 2199023255552 <= n * 2199023255552) by (nonlinear_arith)
                    requires j <= n;
            }
        }
        let height: i64 = if n == 0 {
            0
        } else {
            tops[n - 1] + lines[n - 1].y.raw
        };
        let phys = axes.specialize(Size2D::new(Size::new(width), Size::new(height)));
        let pad = ctx.space.padding;
        let dimensions = Size2D::new(
            Size::new(phys.x.raw + pad.left.raw + pad.right.raw),
            Size::new(phys.y.raw + pad.top.raw + pad.bottom.raw),
        );
        let mut items = self.items;
        let mut actions: Vec<LayoutAction> = Vec::new();
        let mut m: usize = 0;
        let count = items.len();
        while m < count
            invariant
                m <= count == orig.len(),
                items@ == orig.subrange(m as int, count as int),
                actions@ == flex_actions(&ctx, lines@, orig.take(m as int)),
                lines@ == all,
                n == lines@.len(),
                tops@.len() == n + 1,
                forall|j: int| 0 <= j <= n ==> #[trigger] tops@[j] == line_top(lines@, j, spacing as int),
                forall|j: int| 0 <= j <= n ==> 0 <= #[trigger] tops@[j] <= n * 2199023255552,
                forall|j: int| 0 <= j < count ==> (#[trigger] orig[j]).line < n && 0 <= orig[j].offset.raw
                    <= 3 * MAX_EXTENT,
                forall|j: int| 0 <= j < n ==> 0 <= (#[trigger] lines@[j]).x.raw <= 3 * MAX_EXTENT,
                -3 * MAX_EXTENT <= width <= 3 * MAX_EXTENT,
                width == box_width(&ctx, all),
                n <= MAX_ITEMS,
                flex_context_ok(&ctx),
                axes == ctx.axes,
                spacing == ctx.flex_spacing.raw,
                pad == ctx.space.padding,
            decreases count - m,
        {
            let item = items.remove(0);
            assert(item == orig[m as int]);
            let l = item.line;
            let free = Size::new(width - lines[l].x.raw);
            let p = anchor(axes.primary, free, ctx.alignment.secondary);
            let q = tops[l];
            assert(-6 * MAX_EXTENT <= p.raw <= 6 * MAX_EXTENT);
            assert(n * 2199023255552 <= 2305843009213693952) by (nonlinear_arith)
                requires n <= 1048576;
            assert(0 <= q <= 2305843009213693952);
            let at = axes.specialize(Size2D::new(Size::new(p.raw + item.offset.raw), Size::new(q)));
            let pos = Size2D::new(Size::new(pad.left.raw + at.x.raw), Size::new(pad.top.raw + at.y.raw));
            actions.push(LayoutAction::MoveAbsolute(pos));
            let mut own = item.layout.actions;
            actions.append(&mut own);
            proof {
                assert(orig.take(m + 1).drop_last() == orig.take(m as int));
                assert(items@ =~= orig.subrange(m + 1, count as int));
            }
            m = m + 1;
        }
        assert(orig.take(count as int) == orig);
        Layout { dimensions, baseline: None, alignment: ctx.alignment, actions }
    }
}

} // verus!
