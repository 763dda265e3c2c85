//! The stack layouter: block-level layouts stacked along the secondary axis,
//! with merged spacing between them, moving on through the candidate spaces
//! when a layout does not fit.

use vstd::prelude::*;
use crate::geometry::{
    anchor, anchor_of, generalized, LayoutAlignment, LayoutAxes, LayoutSpace,
};
use crate::layout::{Layout, LayoutAction, LayoutError, LayoutResult, MultiLayout};
use crate::size::{Size, Size2D};
use crate::spaces::{space_at, space_count, spaces_of, LayoutSpaces};
use crate::spacing::{pending_of, requested, LastSpacing, SpacingKind};

verus! {

/// The largest extent (in raw units, either sign) that the stack layouter
/// accepts for a dimension, a padding, a spacing or a child.
pub const MAX_EXTENT: i64 = 1099511627776;

pub open spec fn in_range(v: int) -> bool {
    -MAX_EXTENT <= v <= MAX_EXTENT
}

/// Dimensions and padding all lie within the accepted range.
pub open spec fn space_in_range(sp: LayoutSpace) -> bool {
    &&& in_range(sp.dimensions.x.raw as int)
    &&& in_range(sp.dimensions.y.raw as int)
    &&& in_range(sp.padding.left.raw as int)
    &&& in_range(sp.padding.top.raw as int)
    &&& in_range(sp.padding.right.raw as int)
    &&& in_range(sp.padding.bottom.raw as int)
}

/// A child's dimensions are non-negative and within the accepted range.
pub open spec fn child_in_range(d: Size2D) -> bool {
    &&& 0 <= d.x.raw <= MAX_EXTENT
    &&& 0 <= d.y.raw <= MAX_EXTENT
}

/// The usable area of a space, in primary/secondary terms.
pub open spec fn usable_general(axes: LayoutAxes, sp: LayoutSpace) -> Size2D {
    generalized(axes, sp.usable_area())
}

/// A child of generalized size `c` fits into the empty space.
pub open spec fn fits_fresh(axes: LayoutAxes, sp: LayoutSpace, c: Size2D) -> bool {
    let u = usable_general(axes, sp);
    c.x.raw <= u.x.raw && c.y.raw <= u.y.raw
}

/// A child of generalized size `c` fits after `used` and a gap of `gap`.
pub open spec fn fits_after(axes: LayoutAxes, sp: LayoutSpace, used: Size2D, gap: int, c: Size2D) -> bool {
    let u = usable_general(axes, sp);
    c.x.raw <= u.x.raw && used.y.raw + gap + c.y.raw <= u.y.raw
}

/// The first space from index `j` on into which the child fits, if any.
pub open spec fn first_fitting(axes: LayoutAxes, spaces: Seq<LayoutSpace>, c: Size2D, j: int) -> Option<int>
    decreases spaces.len() - j,
{
    if j < 0 || j >= spaces.len() {
        None
    } else if fits_fresh(axes, spaces[j], c) {
        Some(j)
    } else {
        first_fitting(axes, spaces, c, j + 1)
    }
}

/// The gap that a pending spacing makes before the next child.
pub open spec fn gap_size(last: LastSpacing) -> int {
    match pending_of(last) {
        Some(s) => s.raw as int,
        None => 0,
    }
}

/// Where a child of generalized size `c` is placed in a space, `offset` into
/// the secondary extent: anchored along the primary axis, taken from the
/// secondary axis's origin, and moved past the padding.
pub open spec fn placed_at(
    axes: LayoutAxes,
    alignment: LayoutAlignment,
    sp: LayoutSpace,
    offset: int,
    c: Size2D,
) -> Size2D {
    let u = usable_general(axes, sp);
    let p = anchor_of(axes.primary, u.x.raw - c.x.raw, alignment.primary);
    let q = if axes.secondary.positive() {
        offset
    } else {
        u.y.raw - offset - c.y.raw
    };
    let phys = generalized(axes, Size2D { x: Size { raw: p as i64 }, y: Size { raw: q as i64 } });
    Size2D {
        x: Size { raw: (sp.padding.left.raw + phys.x.raw) as i64 },
        y: Size { raw: (sp.padding.top.raw + phys.y.raw) as i64 },
    }
}

/// The dimensions of a finished space: the full dimensions along an expanded
/// axis, else the used extent plus the padding.
pub open spec fn finished_dims(axes: LayoutAxes, sp: LayoutSpace, used: Size2D) -> Size2D {
    let s = generalized(axes, used);
    Size2D {
        x: if sp.expand.0 {
            sp.dimensions.x
        } else {
            Size { raw: (s.x.raw + sp.padding.left.raw + sp.padding.right.raw) as i64 }
        },
        y: if sp.expand.1 {
            sp.dimensions.y
        } else {
            Size { raw: (s.y.raw + sp.padding.top.raw + sp.padding.bottom.raw) as i64 }
        },
    }
}

/// `l` is the layout of a finished space.
pub open spec fn is_space_layout(
    l: Layout,
    axes: LayoutAxes,
    alignment: LayoutAlignment,
    sp: LayoutSpace,
    used: Size2D,
    actions: Seq<LayoutAction>,
) -> bool {
    &&& l.dimensions == finished_dims(axes, sp, used)
    &&& l.baseline is None
    &&& l.alignment == alignment
    &&& l.actions@ == actions
}

/// What the stack layouter works with.
pub struct StackContext {
    /// The candidate spaces, tried in order.
    pub spaces: LayoutSpaces,
    /// The axes: children are stacked along the secondary one.
    pub axes: LayoutAxes,
    /// The alignment of children and of the finished boxes.
    pub alignment: LayoutAlignment,
}

/// The general context for layouting.
pub struct LayoutContext {
    /// Whether this layouting process handles the top-level pages.
    pub top_level: bool,
    /// The spaces to lay out in, tried in order.
    pub spaces: LayoutSpaces,
    /// The initial axes along which content is laid out.
    pub axes: LayoutAxes,
    /// The alignment for the two axes.
    pub alignment: LayoutAlignment,
}

impl LayoutContext {
    /// The context for stacking blocks in this context's spaces.
    pub fn stack_context(self) -> (r: StackContext)
        ensures
            spaces_of(r.spaces) == spaces_of(self.spaces),
            r.axes == self.axes,
            r.alignment == self.alignment,
    {
        StackContext { spaces: self.spaces, axes: self.axes, alignment: self.alignment }
    }
}

/// The spaces are usable by a stack layouter.
pub open spec fn context_ok(ctx: &StackContext) -> bool {
    &&& ctx.axes.wf()
    &&& spaces_of(ctx.spaces).len() > 0
    &&& forall|i: int| 0 <= i < spaces_of(ctx.spaces).len() ==> space_in_range(#[trigger] spaces_of(ctx.spaces)[i])
}

/// Stacks block-level layouts along the secondary axis.
pub struct StackLayouter {
    ctx: StackContext,
    active: usize,
    used: Size2D,
    has_content: bool,
    actions: Vec<LayoutAction>,
    last_spacing: LastSpacing,
    finished: Vec<Layout>,
}

impl StackLayouter {
    pub closed spec fn spaces(&self) -> Seq<LayoutSpace> {
        spaces_of(self.ctx.spaces)
    }

    pub closed spec fn axes(&self) -> LayoutAxes {
        self.ctx.axes
    }

    pub closed spec fn alignment(&self) -> LayoutAlignment {
        self.ctx.alignment
    }

    /// The index of the space being filled.
    pub closed spec fn active(&self) -> int {
        self.active as int
    }

    /// The extent used in the active space, in primary/secondary terms.
    pub closed spec fn used(&self) -> Size2D {
        self.used
    }

    /// Whether the active space holds a child.
    pub closed spec fn has_content(&self) -> bool {
        self.has_content
    }

    /// The actions of the active space so far.
    pub closed spec fn actions(&self) -> Seq<LayoutAction> {
        self.actions@
    }

    /// The spacing pending before the next child.
    pub closed spec fn pending_spacing(&self) -> LastSpacing {
        self.last_spacing
    }

    /// The layouts of the spaces that were left behind.
    pub closed spec fn finished(&self) -> Seq<Layout> {
        self.finished@
    }

    pub closed spec fn wf(&self) -> bool {
        &&& context_ok(&self.ctx)
        &&& self.active < spaces_of(self.ctx.spaces).len()
        &&& 0 <= self.used.x.raw <= MAX_EXTENT
        &&& 0 <= self.used.y.raw <= 3 * MAX_EXTENT
        &&& self.has_content ==> {
            let u = usable_general(self.ctx.axes, spaces_of(self.ctx.spaces)[self.active as int]);
            self.used.x.raw <= u.x.raw && self.used.y.raw <= u.y.raw
        }
        &&& !self.has_content ==> self.used.x.raw == 0 && self.used.y.raw == 0
        &&& !self.has_content ==> self.last_spacing == LastSpacing::Hard(Size { raw: 0 })
        &&& match self.last_spacing {
            LastSpacing::Hard(s) => 0 <= s.raw <= MAX_EXTENT,
            LastSpacing::Soft(s, _) => 0 <= s.raw <= MAX_EXTENT,
            LastSpacing::Empty => true,
        }
    }

    /// A stack layouter at the start of the first space.
    pub fn new(ctx: StackContext) -> (r: StackLayouter)
        requires
            context_ok(&ctx),
        ensures
            r.wf(),
            r.spaces() == spaces_of(ctx.spaces),
            r.axes() == ctx.axes,
            r.alignment() == ctx.alignment,
            r.active() == 0,
            r.used().x.raw == 0 && r.used().y.raw == 0,
            !r.has_content(),
            r.actions().len() == 0,
            r.pending_spacing() == LastSpacing::Hard(Size { raw: 0 }),
            r.finished().len() == 0,
    {
        StackLayouter {
            ctx,
            active: 0,
            used: Size2D::zero(),
            has_content: false,
            actions: Vec::new(),
            last_spacing: LastSpacing::Hard(Size::zero()),
            finished: Vec::new(),
        }
    }
}

impl StackLayouter {
    /// Requests spacing before the next child, merged with what is pending.
    pub fn add_spacing(&mut self, size: Size, kind: SpacingKind)
        requires
            old(self).wf(),
            0 <= size.raw <= MAX_EXTENT,
        ensures
            final(self).wf(),
            final(self).pending_spacing() == requested(old(self).pending_spacing(), size, kind),
            final(self).spaces() == old(self).spaces(),
            final(self).axes() == old(self).axes(),
            final(self).alignment() == old(self).alignment(),
            final(self).active() == old(self).active(),
            final(self).used() == old(self).used(),
            final(self).has_content() == old(self).has_content(),
            final(self).actions() == old(self).actions(),
            final(self).finished() == old(self).finished(),
    {
        self.last_spacing = self.last_spacing.request(size, kind);
    }

    /// Where a child goes in `sp`, `offset` into the secondary extent.
    fn position(&self, sp: LayoutSpace, offset: i64, c: Size2D) -> (r: Size2D)
        requires
            self.wf(),
            space_in_range(sp),
            child_in_range(c),
            0 <= offset <= 5 * MAX_EXTENT,
        ensures
            r == placed_at(self.axes(), self.alignment(), sp, offset as int, c),
    {
        let axes = self.ctx.axes;
        let u = axes.generalize(sp.usable());
        let free = Size::new(u.x.raw - c.x.raw);
        let p = anchor(axes.primary, free, self.ctx.alignment.primary);
        let q: i64 = if axes.secondary.is_positive() {
            offset
        } else {
            u.y.raw - offset - c.y.raw
        };
        let phys = axes.specialize(Size2D::new(p, Size::new(q)));
        Size2D::new(
            Size::new(sp.padding.left.raw + phys.x.raw),
            Size::new(sp.padding.top.raw + phys.y.raw),
        )
    }

    /// Takes the active space's actions out into its finished layout.
    fn take_layout(&mut self) -> (r: Layout)
        requires
            old(self).wf(),
        ensures
            final(self).wf(),
            is_space_layout(
                r,
                old(self).axes(),
                old(self).alignment(),
                old(self).spaces()[old(self).active()],
                old(self).used(),
                old(self).actions(),
            ),
            final(self).actions().len() == 0,
            final(self).spaces() == old(self).spaces(),
            final(self).axes() == old(self).axes(),
            final(self).alignment() == old(self).alignment(),
            final(self).active() == old(self).active(),
            final(self).used() == old(self).used(),
            final(self).has_content() == old(self).has_content(),
            final(self).pending_spacing() == old(self).pending_spacing(),
            final(self).finished() == old(self).finished(),
    {
        let sp = space_at(&self.ctx.spaces, self.active);
        let s = self.ctx.axes.specialize(self.used);
        let x = if sp.expand.0 {
            sp.dimensions.x
        } else {
            Size::new(s.x.raw + sp.padding.left.raw + sp.padding.right.raw)
        };
        let y = if sp.expand.1 {
            sp.dimensions.y
        } else {
            Size::new(s.y.raw + sp.padding.top.raw + sp.padding.bottom.raw)
        };
        let mut actions: Vec<LayoutAction> = Vec::new();
        std::mem::swap(&mut actions, &mut self.actions);
        Layout {
            dimensions: Size2D::new(x, y),
            baseline: None,
            alignment: self.ctx.alignment,
            actions,
        }
    }

    /// Adds a child layout. It goes into the active space after the pending
    /// gap if it fits there, else into the first later space into which it
    /// fits (the active space is finished first if it holds a child); if no
    /// space fits, nothing changes and an error is returned.
    pub fn add(&mut self, layout: Layout) -> (r: LayoutResult<()>)
        requires
            old(self).wf(),
            child_in_range(generalized(old(self).axes(), layout.dimensions)),
        ensures
            final(self).wf(),
            final(self).spaces() == old(self).spaces(),
            final(self).axes() == old(self).axes(),
            final(self).alignment() == old(self).alignment(),
            ({
                let c = generalized(old(self).axes(), layout.dimensions);
                let spaces = old(self).spaces();
                let a = old(self).active();
                let gap = gap_size(old(self).pending_spacing());
                let here = fits_after(old(self).axes(), spaces[a], old(self).used(), gap, c);
                let later = first_fitting(old(self).axes(), spaces, c, a + 1);
                &&& (r is Err <==> !here && later is None)
                &&& r is Err ==> *final(self) == *old(self)
                &&& r is Ok ==> {
                    &&& final(self).has_content()
                    &&& final(self).pending_spacing() == LastSpacing::Empty
                    &&& here ==> {
                        &&& final(self).active() == a
                        &&& final(self).used().x.raw == if c.x.raw > old(self).used().x.raw {
                            c.x.raw
                        } else {
                            old(self).used().x.raw
                        }
                        &&& final(self).used().y.raw == old(self).used().y.raw + gap + c.y.raw
                        &&& final(self).actions() == old(self).actions().push(
                            LayoutAction::MoveAbsolute(
                                placed_at(
                                    old(self).axes(),
                                    old(self).alignment(),
                                    spaces[a],
                                    old(self).used().y.raw + gap,
                                    c,
                                ),
                            ),
                        ) + layout.actions@
                        &&& final(self).finished() == old(self).finished()
                    }
                    &&& !here ==> {
                        &&& later == Some(final(self).active())
                        &&& final(self).used() == c
                        &&& final(self).actions() == seq![
                            LayoutAction::MoveAbsolute(
                                placed_at(
                                    old(self).axes(),
                                    old(self).alignment(),
                                    spaces[final(self).active()],
                                    0,
                                    c,
                                ),
                            ),
                        ] + layout.actions@
                        &&& old(self).has_content() ==> {
                            &&& final(self).finished().len() == old(self).finished().len() + 1
                            &&& final(self).finished().drop_last() == old(self).finished()
                            &&& is_space_layout(
                                final(self).finished().last(),
                                old(self).axes(),
                                old(self).alignment(),
                                spaces[a],
                                old(self).used(),
                                old(self).actions(),
                            )
                        }
                        &&& !old(self).has_content() ==> final(self).finished() == old(self).finished()
                    }
                }
            }),
    {
        let axes = self.ctx.axes;
        let c = axes.generalize(layout.dimensions);
        let sp = space_at(&self.ctx.spaces, self.active);
        let u = axes.generalize(sp.usable());
        let gap: i64 = match self.last_spacing.pending() {
            Some(s) => s.raw,
            None => 0,
        };
        if c.x.raw <= u.x.raw && self.used.y.raw + gap + c.y.raw <= u.y.raw {
            let offset: i64 = self.used.y.raw + gap;
            let pos = self.position(sp, offset, c);
            self.actions.push(LayoutAction::MoveAbsolute(pos));
            let mut child_actions = layout.actions;
            self.actions.append(&mut child_actions);
            let wide = if c.x.raw > self.used.x.raw {
                c.x
            } else {
                self.used.x
            };
            self.used = Size2D::new(wide, Size::new(offset + c.y.raw));
            self.has_content = true;
            self.last_spacing = LastSpacing::Empty;
            return Ok(());
        }
        let n = space_count(&self.ctx.spaces);
        let mut j: usize = self.active + 1;
        let ghost spaces = self.spaces();
        let ghost a = self.active();
        while j < n
            invariant
                a + 1 <= j <= n,
                n == spaces.len(),
                spaces == spaces_of(self.ctx.spaces),
                context_ok(&self.ctx),
                axes == self.ctx.axes,
                first_fitting(axes, spaces, c, a + 1) == first_fitting(axes, spaces, c, j as int),
            ensures
                a + 1 <= j <= n,
                j < n ==> fits_fresh(axes, spaces[j as int], c),
                first_fitting(axes, spaces, c, a + 1) == first_fitting(axes, spaces, c, j as int),
            decreases n - j,
        {
            let spj = space_at(&self.ctx.spaces, j);
            let uj = axes.generalize(spj.usable());
            if c.x.raw <= uj.x.raw && c.y.raw <= uj.y.raw {
                break;
            }
            j = j + 1;
        }
        proof {
            if j < n {
                assert(first_fitting(axes, spaces, c, j as int) == Some(j as int));
            }
        }
        if j >= n {
            return Err(LayoutError::new("the content does not fit into any offered space"));
        }
        if self.has_content {
            let finished_layout = self.take_layout();
            self.finished.push(finished_layout);
            proof {
                assert(self.finished@.drop_last() == old(self).finished@);
            }
        }
        let spj = space_at(&self.ctx.spaces, j);
        let pos = self.position(spj, 0, c);
        self.active = j;
        let mut actions: Vec<LayoutAction> = Vec::new();
        actions.push(LayoutAction::MoveAbsolute(pos));
        let mut child_actions = layout.actions;
        actions.append(&mut child_actions);
        self.actions = actions;
        self.used = c;
        self.has_content = true;
        self.last_spacing = LastSpacing::Empty;
        Ok(())
    }

    /// A space that holds a child is finished into a box no larger than the
    /// space's dimensions.
    pub proof fn lemma_within_space(&self)
        requires
            self.wf(),
            self.has_content(),
        ensures
            ({
                let sp = self.spaces()[self.active()];
                let d = finished_dims(self.axes(), sp, self.used());
                d.x.raw <= sp.dimensions.x.raw && d.y.raw <= sp.dimensions.y.raw
            }),
    {
    }

    /// Finishes the active space; returns the layouts of all spaces filled.
    pub fn finish(self) -> (r: MultiLayout)
        requires
            self.wf(),
        ensures
            r@.len() == self.finished().len() + 1,
            r@.take(self.finished().len() as int) == self.finished(),
            is_space_layout(
                r@.last(),
                self.axes(),
                self.alignment(),
                self.spaces()[self.active()],
                self.used(),
                self.actions(),
            ),
    {
        let mut this = self;
        let l = this.take_layout();
        let mut finished = this.finished;
        finished.push(l);
        proof {
            assert(finished@.take(self.finished().len() as int) == self.finished());
        }
        finished
    }
}

} // verus!
