use layout_core::flex::{FlexContext, FlexLayouter};
use layout_core::geometry::{Alignment, Axis, LayoutAlignment, LayoutAxes, LayoutSpace};
use layout_core::layout::{Layout, LayoutAction};
use layout_core::size::{Size, Size2D, SizeBox};
use layout_core::spaces::spaces_from;
use layout_core::spacing::SpacingKind;
use layout_core::stack::{StackContext, StackLayouter};

fn dims(x: i64, y: i64) -> Size2D {
    Size2D::new(Size::pt(x), Size::pt(y))
}

fn word(x: i64, y: i64, t: &str) -> Layout {
    Layout {
        dimensions: dims(x, y),
        baseline: None,
        alignment: LayoutAlignment::new(Alignment::Origin, Alignment::Origin),
        actions: vec![LayoutAction::WriteText(t.as_bytes().to_vec())],
    }
}

fn context(secondary: Alignment, expand: bool) -> FlexContext {
    FlexContext {
        space: LayoutSpace {
            dimensions: dims(100, 100),
            expand: (expand, expand),
            padding: SizeBox::zero(),
        },
        axes: LayoutAxes::new(Axis::LeftToRight, Axis::TopToBottom),
        alignment: LayoutAlignment::new(Alignment::Origin, secondary),
        flex_spacing: Size::pt(2),
    }
}

fn fill(flex: &mut FlexLayouter) {
    assert!(flex.add(word(40, 10, "a")).is_ok());
    flex.add_spacing(Size::pt(5), SpacingKind::space());
    assert!(flex.add(word(40, 12, "b")).is_ok());
    flex.add_spacing(Size::pt(5), SpacingKind::space());
    assert!(flex.add(word(30, 10, "c")).is_ok());
}

#[test]
fn flex_wraps_into_a_second_line() {
    let mut flex = FlexLayouter::new(context(Alignment::Origin, false));
    fill(&mut flex);
    let out = flex.finish();
    assert_eq!(out.dimensions, dims(85, 24));
    assert_eq!(
        out.actions,
        vec![
            LayoutAction::MoveAbsolute(dims(0, 0)),
            LayoutAction::WriteText(b"a".to_vec()),
            LayoutAction::MoveAbsolute(dims(45, 0)),
            LayoutAction::WriteText(b"b".to_vec()),
            LayoutAction::MoveAbsolute(dims(0, 14)),
            LayoutAction::WriteText(b"c".to_vec()),
        ]
    );
}

#[test]
fn flex_aligns_lines_and_expands() {
    let mut flex = FlexLayouter::new(context(Alignment::End, true));
    fill(&mut flex);
    let out = flex.finish();
    assert_eq!(out.dimensions, dims(100, 24));
    assert_eq!(out.actions[0], LayoutAction::MoveAbsolute(dims(15, 0)));
    assert_eq!(out.actions[4], LayoutAction::MoveAbsolute(dims(70, 14)));
}

#[test]
fn flex_hard_spacing_beats_soft() {
    let mut flex = FlexLayouter::new(context(Alignment::Origin, false));
    assert!(flex.add(word(10, 10, "a")).is_ok());
    flex.add_spacing(Size::pt(1), SpacingKind::space());
    flex.add_spacing(Size::pt(7), SpacingKind::Hard);
    flex.add_spacing(Size::pt(3), SpacingKind::paragraph());
    assert!(flex.add(word(10, 10, "b")).is_ok());
    let out = flex.finish();
    assert_eq!(out.dimensions, dims(27, 10));
    assert_eq!(out.actions[2], LayoutAction::MoveAbsolute(dims(17, 0)));
}

#[test]
fn flex_rejects_a_box_wider_than_a_line() {
    let mut flex = FlexLayouter::new(context(Alignment::Origin, false));
    assert!(flex.add(word(150, 10, "wide")).is_err());
    let out = flex.finish();
    assert_eq!(out.dimensions, dims(0, 0));
    assert!(out.actions.is_empty());
}

#[test]
fn paragraphs_share_one_gap() {
    let paragraph = |first: &str, second: &str| {
        let mut flex = FlexLayouter::new(context(Alignment::Origin, false));
        assert!(flex.add(word(20, 10, first)).is_ok());
        flex.add_spacing(Size::pt(4), SpacingKind::space());
        assert!(flex.add(word(20, 10, second)).is_ok());
        flex.finish()
    };
    let page = LayoutSpace { dimensions: dims(100, 100), expand: (true, true), padding: SizeBox::zero() };
    let ctx = StackContext {
        spaces: spaces_from(&vec![page]),
        axes: LayoutAxes::new(Axis::LeftToRight, Axis::TopToBottom),
        alignment: LayoutAlignment::new(Alignment::Origin, Alignment::Origin),
    };
    let mut stack = StackLayouter::new(ctx);
    assert!(stack.add(paragraph("a", "b")).is_ok());
    stack.add_spacing(Size::pt(12), SpacingKind::paragraph());
    stack.add_spacing(Size::pt(4), SpacingKind::space());
    assert!(stack.add(paragraph("c", "d")).is_ok());
    let out = stack.finish();
    assert_eq!(out.len(), 1);
    assert_eq!(out[0].actions.len(), 2 * (1 + 4));
    assert_eq!(out[0].actions[0], LayoutAction::MoveAbsolute(dims(0, 0)));
    assert_eq!(out[0].actions[5], LayoutAction::MoveAbsolute(dims(0, 22)));
}
