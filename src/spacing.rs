//! The spacing-merge state machine: which of several competing whitespace
//! requests between two boxes survives.

use vstd::prelude::*;
use crate::size::Size;

verus! {

/// The priority of paragraph spacing (the stronger one).
pub const PARAGRAPH_PRIORITY: u32 = 1;

/// The priority of ordinary spacing between boxes.
pub const SPACE_PRIORITY: u32 = 2;

/// Whitespace between boxes with different interaction properties.
#[derive(Debug, Clone, Copy, PartialEq, Eq, Structural)]
pub enum SpacingKind {
    /// A hard space consumes surrounding soft spaces and is always laid out.
    Hard,
    /// A soft space; of competing soft spaces the lowest priority number wins.
    Soft(u32),
}

impl SpacingKind {
    /// The kind used for paragraph spacing.
    pub fn paragraph() -> (r: SpacingKind)
        ensures
            r == SpacingKind::Soft(PARAGRAPH_PRIORITY),
    {
        SpacingKind::Soft(PARAGRAPH_PRIORITY)
    }

    /// The kind used for ordinary spaces between boxes.
    pub fn space() -> (r: SpacingKind)
        ensures
            r == SpacingKind::Soft(SPACE_PRIORITY),
    {
        SpacingKind::Soft(SPACE_PRIORITY)
    }
}

/// The spacing that is pending between the last content and the next.
#[derive(Debug, Clone, Copy, PartialEq, Eq, Structural)]
pub enum LastSpacing {
    /// A hard spacing of the given size.
    Hard(Size),
    /// A soft spacing of the given size and priority.
    Soft(Size, u32),
    /// Nothing pending.
    Empty,
}

/// The state after a request for spacing of `size` and `kind`.
pub open spec fn requested(last: LastSpacing, size: Size, kind: SpacingKind) -> LastSpacing {
    match last {
        LastSpacing::Hard(_) => last,
        LastSpacing::Soft(_, p0) => match kind {
            SpacingKind::Soft(p) => if p < p0 {
                LastSpacing::Soft(size, p)
            } else {
                last
            },
            SpacingKind::Hard => LastSpacing::Hard(size),
        },
        LastSpacing::Empty => match kind {
            SpacingKind::Soft(p) => LastSpacing::Soft(size, p),
            SpacingKind::Hard => LastSpacing::Hard(size),
        },
    }
}

/// The size that is emitted when content follows, if any.
pub open spec fn pending_of(last: LastSpacing) -> Option<Size> {
    match last {
        LastSpacing::Hard(s) => Some(s),
        LastSpacing::Soft(s, _) => Some(s),
        LastSpacing::Empty => None,
    }
}

impl LastSpacing {
    /// The size of a pending soft spacing, or zero.
    pub fn soft_or_zero(&self) -> (r: Size)
        ensures
            r == (match *self {
                LastSpacing::Soft(s, _) => s,
                _ => Size { raw: 0 },
            }),
    {
        match self {
            LastSpacing::Soft(space, _) => *space,
            _ => Size::zero(),
        }
    }

    /// The state after a request for spacing: a pending hard spacing swallows
    /// every request, a hard request replaces a soft one, and of two soft ones
    /// the lower priority number wins (the pending one on a tie).
    pub fn request(self, size: Size, kind: SpacingKind) -> (r: LastSpacing)
        ensures
            r == requested(self, size, kind),
    {
        match self {
            LastSpacing::Hard(_) => self,
            LastSpacing::Soft(_, p0) => match kind {
                SpacingKind::Soft(p) => if p < p0 {
                    LastSpacing::Soft(size, p)
                } else {
                    self
                },
                SpacingKind::Hard => LastSpacing::Hard(size),
            },
            LastSpacing::Empty => match kind {
                SpacingKind::Soft(p) => LastSpacing::Soft(size, p),
                SpacingKind::Hard => LastSpacing::Hard(size),
            },
        }
    }

    /// The size to emit before the next content, if any.
    pub fn pending(&self) -> (r: Option<Size>)
        ensures
            r == pending_of(*self),
    {
        match self {
            LastSpacing::Hard(s) => Some(*s),
            LastSpacing::Soft(s, _) => Some(*s),
            LastSpacing::Empty => None,
        }
    }
}

/// A second hard request right after a first changes nothing.
pub proof fn lemma_hard_idempotent(last: LastSpacing, a: Size, b: Size)
    ensures
        requested(requested(last, a, SpacingKind::Hard), b, SpacingKind::Hard)
            == requested(last, a, SpacingKind::Hard),
{
}

/// One entry of a flow: a box of some extent, or a request for spacing.
#[derive(Debug, Clone, Copy, PartialEq, Eq, Structural)]
pub enum FlowItem {
    Content(Size),
    Spacing(Size, SpacingKind),
}

/// One entry of a merged flow: a box, or a gap that survived the merge.
#[derive(Debug, Clone, Copy, PartialEq, Eq, Structural)]
pub enum Placed {
    Content(Size),
    Gap(Size),
}

/// The gap emitted for a pending spacing when content follows.
pub open spec fn gap_of(last: LastSpacing) -> Seq<Placed> {
    match pending_of(last) {
        Some(s) => seq![Placed::Gap(s)],
        None => Seq::empty(),
    }
}

/// What a flow emits so far, and the spacing still pending after it.
pub open spec fn run(items: Seq<FlowItem>) -> (Seq<Placed>, LastSpacing)
    decreases items.len(),
{
    if items.len() == 0 {
        (Seq::empty(), LastSpacing::Empty)
    } else {
        let (out, last) = run(items.drop_last());
        match items.last() {
            FlowItem::Content(c) => (out + gap_of(last) + seq![Placed::Content(c)], LastSpacing::Empty),
            FlowItem::Spacing(s, k) => (out, requested(last, s, k)),
        }
    }
}

/// The merged flow: spacing that is still pending at the end is dropped.
pub open spec fn merged(items: Seq<FlowItem>) -> Seq<Placed> {
    run(items).0
}

/// Runs a flow through the spacing-merge state machine.
pub fn merge_spacing(items: &Vec<FlowItem>) -> (r: Vec<Placed>)
    ensures
        r@ == merged(items@),
{
    let mut out: Vec<Placed> = Vec::new();
    let mut last = LastSpacing::Empty;
    let mut i: usize = 0;
    while i < items.len()
        invariant
            i <= items@.len(),
            (out@, last) == run(items@.take(i as int)),
        decreases items@.len() - i,
    {
        let item = items[i];
        proof {
            assert(items@.take(i + 1).drop_last() == items@.take(i as int));
        }
        match item {
            FlowItem::Content(c) => {
                match last.pending() {
                    Some(s) => out.push(Placed::Gap(s)),
                    None => {},
                }
                out.push(Placed::Content(c));
                last = LastSpacing::Empty;
            },
            FlowItem::Spacing(s, k) => {
                last = last.request(s, k);
            },
        }
        i = i + 1;
    }
    proof {
        assert(items@.take(i as int) == items@);
    }
    out
}

/// Spacing still pending at the end of a flow emits nothing.
pub proof fn lemma_trailing_spacing_dropped(items: Seq<FlowItem>, size: Size, kind: SpacingKind)
    ensures
        merged(items.push(FlowItem::Spacing(size, kind))) == merged(items),
{
    assert(items.push(FlowItem::Spacing(size, kind)).drop_last() == items);
}

} // verus!
