use layout_core::geometry::{anchor, Alignment, Axis, LayoutAlignment, LayoutAxes, LayoutSpace};
use layout_core::layout::{serialize_multi, Layout, LayoutAction, LayoutError};
use layout_core::size::{Size, Size2D, SizeBox};
use layout_core::spaces::spaces_from;
use layout_core::spacing::{merge_spacing, FlowItem, LastSpacing, Placed, SpacingKind};
use layout_core::stack::{LayoutContext, StackContext, StackLayouter};

fn pt(v: i64) -> Size {
    Size::pt(v)
}

fn dims(x: i64, y: i64) -> Size2D {
    Size2D::new(pt(x), pt(y))
}

fn space(x: i64, y: i64, pad: i64, expand: bool) -> LayoutSpace {
    LayoutSpace {
        dimensions: dims(x, y),
        expand: (expand, expand),
        padding: SizeBox::new(pt(pad), pt(pad), pt(pad), pt(pad)),
    }
}

fn block(x: i64, y: i64) -> Layout {
    Layout {
        dimensions: dims(x, y),
        baseline: None,
        alignment: LayoutAlignment::new(Alignment::Origin, Alignment::Origin),
        actions: vec![LayoutAction::WriteText(b"x".to_vec())],
    }
}

fn ltr_ttb() -> LayoutAxes {
    LayoutAxes::new(Axis::LeftToRight, Axis::TopToBottom)
}

fn origin() -> LayoutAlignment {
    LayoutAlignment::new(Alignment::Origin, Alignment::Origin)
}

fn text(bytes: Vec<u8>) -> String {
    String::from_utf8(bytes).unwrap()
}

#[test]
fn generalize_twice_gives_back_the_size() {
    let s = dims(3, 7);
    for axes in [
        LayoutAxes::new(Axis::LeftToRight, Axis::TopToBottom),
        LayoutAxes::new(Axis::TopToBottom, Axis::RightToLeft),
        LayoutAxes::new(Axis::BottomToTop, Axis::LeftToRight),
    ] {
        assert_eq!(axes.generalize(axes.generalize(s)), s);
        assert_eq!(axes.specialize(axes.generalize(s)), s);
    }
    let vertical = LayoutAxes::new(Axis::TopToBottom, Axis::LeftToRight);
    assert_eq!(vertical.generalize(s), dims(7, 3));
    assert_eq!(ltr_ttb().generalize(s), s);
}

#[test]
fn anchor_boundary_values() {
    let size = pt(10);
    for axis in [Axis::LeftToRight, Axis::TopToBottom] {
        assert_eq!(anchor(axis, size, Alignment::Origin), Size::zero());
        assert_eq!(anchor(axis, size, Alignment::End), size);
        assert_eq!(anchor(axis, size, Alignment::Center), pt(5));
    }
    for axis in [Axis::RightToLeft, Axis::BottomToTop] {
        assert_eq!(anchor(axis, size, Alignment::Origin), size);
        assert_eq!(anchor(axis, size, Alignment::End), Size::zero());
        assert_eq!(anchor(axis, size, Alignment::Center), pt(5));
    }
    assert_eq!(anchor(Axis::LeftToRight, Size::new(-3), Alignment::Center), Size::new(-1));
    assert_eq!(anchor(Axis::LeftToRight, Size::new(7), Alignment::Center), Size::new(3));
}

#[test]
fn axis_directions_and_factors() {
    assert!(Axis::LeftToRight.is_horizontal());
    assert!(Axis::RightToLeft.is_horizontal());
    assert!(!Axis::TopToBottom.is_horizontal());
    assert!(!Axis::BottomToTop.is_horizontal());
    assert_eq!(Axis::LeftToRight.factor(), 1);
    assert_eq!(Axis::TopToBottom.factor(), 1);
    assert_eq!(Axis::RightToLeft.factor(), -1);
    assert_eq!(Axis::BottomToTop.factor(), -1);
}

#[test]
fn two_hard_requests_act_as_one() {
    for start in [LastSpacing::Empty, LastSpacing::Soft(pt(4), 2), LastSpacing::Hard(pt(1))] {
        let once = start.request(pt(3), SpacingKind::Hard);
        let twice = once.request(pt(9), SpacingKind::Hard);
        assert_eq!(once, twice);
    }
    assert_eq!(LastSpacing::Empty.request(pt(3), SpacingKind::Hard).pending(), Some(pt(3)));
}

#[test]
fn stronger_soft_spacing_wins() {
    let a = LastSpacing::Empty.request(pt(5), SpacingKind::Soft(2)).request(pt(3), SpacingKind::Soft(1));
    assert_eq!(a.pending(), Some(pt(3)));
    let b = LastSpacing::Empty.request(pt(5), SpacingKind::Soft(1)).request(pt(3), SpacingKind::Soft(2));
    assert_eq!(b.pending(), Some(pt(5)));
    let tie = LastSpacing::Empty.request(pt(5), SpacingKind::Soft(2)).request(pt(3), SpacingKind::Soft(2));
    assert_eq!(tie.pending(), Some(pt(5)));
    let hard = LastSpacing::Soft(pt(5), 1).request(pt(2), SpacingKind::Hard);
    assert_eq!(hard, LastSpacing::Hard(pt(2)));
    let kept = LastSpacing::Hard(pt(2)).request(pt(8), SpacingKind::Soft(0));
    assert_eq!(kept, LastSpacing::Hard(pt(2)));
    assert_eq!(LastSpacing::Soft(pt(5), 1).soft_or_zero(), pt(5));
    assert_eq!(LastSpacing::Hard(pt(5)).soft_or_zero(), Size::zero());
    assert_eq!(LastSpacing::Empty.pending(), None);
    assert_eq!(SpacingKind::paragraph(), SpacingKind::Soft(1));
    assert_eq!(SpacingKind::space(), SpacingKind::Soft(2));
}

#[test]
fn trailing_spacing_is_dropped() {
    let items = vec![
        FlowItem::Content(pt(1)),
        FlowItem::Spacing(pt(2), SpacingKind::space()),
        FlowItem::Spacing(pt(6), SpacingKind::paragraph()),
        FlowItem::Content(pt(4)),
        FlowItem::Spacing(pt(7), SpacingKind::Hard),
    ];
    assert_eq!(
        merge_spacing(&items),
        vec![Placed::Content(pt(1)), Placed::Gap(pt(6)), Placed::Content(pt(4))]
    );
    let soft_end = vec![FlowItem::Content(pt(1)), FlowItem::Spacing(pt(2), SpacingKind::space())];
    assert_eq!(merge_spacing(&soft_end), vec![Placed::Content(pt(1))]);
    assert_eq!(merge_spacing(&Vec::new()), Vec::<Placed>::new());
}

#[test]
fn usable_area_takes_off_padding() {
    let sp = LayoutSpace {
        dimensions: dims(100, 50),
        expand: (true, false),
        padding: SizeBox::new(pt(1), pt(2), pt(3), pt(4)),
    };
    assert_eq!(sp.usable(), dims(96, 44));
    assert_eq!(sp.start(), dims(1, 2));
    let u = sp.usable_space();
    assert_eq!(u.dimensions, dims(96, 44));
    assert_eq!(u.padding, SizeBox::zero());
    assert_eq!(u.expand, (false, false));
}

#[test]
fn stack_moves_on_to_the_second_space() {
    let spaces = spaces_from(&vec![space(20, 20, 0, true), space(200, 300, 0, true)]);
    let ctx = StackContext { spaces, axes: ltr_ttb(), alignment: origin() };
    let mut stack = StackLayouter::new(ctx);
    assert!(stack.add(block(50, 100)).is_ok());
    let out = stack.finish();
    assert_eq!(out.len(), 1);
    assert_eq!(out[0].dimensions, dims(200, 300));
}

#[test]
fn stack_fails_when_no_space_fits() {
    let spaces = spaces_from(&vec![space(20, 20, 0, true), space(30, 30, 0, true)]);
    let ctx = StackContext { spaces, axes: ltr_ttb(), alignment: origin() };
    let mut stack = StackLayouter::new(ctx);
    let r = stack.add(block(50, 100));
    assert!(r.is_err());
    let out = stack.finish();
    assert_eq!(out.len(), 1);
    assert_eq!(out[0].actions.len(), 0);
}

#[test]
fn stack_merges_spacing_between_children() {
    let spaces = spaces_from(&vec![space(100, 100, 5, false)]);
    let ctx = StackContext { spaces, axes: ltr_ttb(), alignment: origin() };
    let mut stack = StackLayouter::new(ctx);
    stack.add_spacing(pt(30), SpacingKind::paragraph());
    assert!(stack.add(block(10, 10)).is_ok());
    stack.add_spacing(pt(6), SpacingKind::paragraph());
    stack.add_spacing(pt(2), SpacingKind::space());
    assert!(stack.add(block(20, 10)).is_ok());
    stack.add_spacing(pt(9), SpacingKind::Hard);
    let out = stack.finish();
    assert_eq!(out.len(), 1);
    assert_eq!(out[0].dimensions, dims(30, 36));
    assert_eq!(
        out[0].actions,
        vec![
            LayoutAction::MoveAbsolute(dims(5, 5)),
            LayoutAction::WriteText(b"x".to_vec()),
            LayoutAction::MoveAbsolute(dims(5, 21)),
            LayoutAction::WriteText(b"x".to_vec()),
        ]
    );
}

#[test]
fn stack_finishes_a_full_space_and_aligns() {
    let spaces = spaces_from(&vec![space(100, 30, 0, true), space(100, 30, 0, true)]);
    let ctx = LayoutContext {
        top_level: true,
        spaces,
        axes: ltr_ttb(),
        alignment: LayoutAlignment::new(Alignment::End, Alignment::Origin),
    };
    let mut stack = StackLayouter::new(ctx.stack_context());
    assert!(stack.add(block(40, 20)).is_ok());
    assert!(stack.add(block(40, 20)).is_ok());
    let out = stack.finish();
    assert_eq!(out.len(), 2);
    assert_eq!(out[0].actions[0], LayoutAction::MoveAbsolute(dims(60, 0)));
    assert_eq!(out[1].actions[0], LayoutAction::MoveAbsolute(dims(60, 0)));
    assert_eq!(out[1].dimensions, dims(100, 30));
}

#[test]
fn serialized_text_is_exact() {
    let l = Layout {
        dimensions: Size2D::new(Size::new(100000), Size::new(205000)),
        baseline: None,
        alignment: origin(),
        actions: vec![
            LayoutAction::MoveAbsolute(Size2D::new(Size::new(-5000), Size::new(12))),
            LayoutAction::SetFont(3, pt(12)),
            LayoutAction::WriteText(b"a\nb\\".to_vec()),
            LayoutAction::DebugBox(dims(1, 2), dims(3, 4)),
        ],
    };
    let mut out = Vec::new();
    l.serialize(&mut out);
    assert_eq!(
        text(out),
        "10.0000 20.5000\n4\nm -0.5000 0.0012\nf 3 12.0000\nw a\\nb\\\\\nb 1.0000 2.0000 3.0000 4.0000\n"
    );
}

#[test]
fn serialized_line_count() {
    let mut a = block(1, 2);
    a.actions.push(LayoutAction::WriteText(b"two\nlines".to_vec()));
    let b = block(3, 4);
    let c = Layout { dimensions: dims(0, 0), baseline: None, alignment: origin(), actions: vec![] };
    let multi = vec![a, b, c];
    let mut out = Vec::new();
    serialize_multi(&multi, &mut out);
    let lines = out.iter().filter(|b| **b == b'\n').count();
    assert_eq!(lines, 1 + (2 + 2) + (2 + 1) + (2 + 0));
    assert!(text(out).starts_with("3\n1.0000 2.0000\n2\n"));
}

#[test]
fn error_keeps_its_message() {
    let e = LayoutError::new("no room");
    assert_eq!(e.message, "no room");
}
