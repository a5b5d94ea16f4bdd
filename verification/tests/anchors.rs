//! Anchor resolution: every anchor point yields absolute positioning with
//! the pinned/centered edge pattern.

use streamline_ui::blocks::position::{AnchorPoint, NodePosition};
use streamline_ui::builders::bundle::NodeBundleBuilder;
use streamline_ui::geometry::{Length, PositionType, Style};

fn anchored_style(anchor: AnchorPoint) -> Style {
    let mut builder = NodeBundleBuilder::default();
    let position = NodePosition::Anchored {
        anchor,
        width: Length::Px((40.0f32).to_bits()),
        height: Length::Px((20.0f32).to_bits()),
        margin: Length::Px((5.0f32).to_bits()),
    };
    position.apply_to_node(&mut builder);
    builder.style
}

const PX0: Length = Length::Px(0);

fn margin() -> Length {
    Length::Px((5.0f32).to_bits())
}

#[test]
fn anchor_is_always_absolute() {
    let anchors = [
        AnchorPoint::TopLeft,
        AnchorPoint::TopCenter,
        AnchorPoint::TopRight,
        AnchorPoint::CenterLeft,
        AnchorPoint::Center,
        AnchorPoint::CenterRight,
        AnchorPoint::BottomLeft,
        AnchorPoint::BottomCenter,
        AnchorPoint::BottomRight,
    ];
    for anchor in anchors {
        let style = anchored_style(anchor);
        assert_eq!(style.position_type, PositionType::Absolute);
        assert_eq!(style.width, Length::Px((40.0f32).to_bits()));
        assert_eq!(style.height, Length::Px((20.0f32).to_bits()));
    }
}

#[test]
fn top_left_pins_both_axes() {
    let style = anchored_style(AnchorPoint::TopLeft);
    assert_eq!(style.top, PX0);
    assert_eq!(style.bottom, Length::Auto);
    assert_eq!(style.left, PX0);
    assert_eq!(style.right, Length::Auto);
    assert_eq!(style.margin.left, margin());
    assert_eq!(style.margin.right, margin());
    assert_eq!(style.margin.top, margin());
    assert_eq!(style.margin.bottom, margin());
}

#[test]
fn top_center_centers_horizontally() {
    let style = anchored_style(AnchorPoint::TopCenter);
    assert_eq!(style.top, PX0);
    assert_eq!(style.bottom, Length::Auto);
    assert_eq!(style.left, PX0);
    assert_eq!(style.right, PX0);
    assert_eq!(style.margin.left, Length::Auto);
    assert_eq!(style.margin.right, Length::Auto);
    assert_eq!(style.margin.top, margin());
    assert_eq!(style.margin.bottom, margin());
}

#[test]
fn top_right_pins_right_edge() {
    let style = anchored_style(AnchorPoint::TopRight);
    assert_eq!(style.top, PX0);
    assert_eq!(style.bottom, Length::Auto);
    assert_eq!(style.right, PX0);
    assert_eq!(style.left, Length::Auto);
    assert_eq!(style.margin.left, margin());
    assert_eq!(style.margin.right, margin());
}

#[test]
fn center_left_centers_vertically() {
    let style = anchored_style(AnchorPoint::CenterLeft);
    assert_eq!(style.top, PX0);
    assert_eq!(style.bottom, PX0);
    assert_eq!(style.left, PX0);
    assert_eq!(style.right, Length::Auto);
    assert_eq!(style.margin.top, Length::Auto);
    assert_eq!(style.margin.bottom, Length::Auto);
    assert_eq!(style.margin.left, margin());
    assert_eq!(style.margin.right, margin());
}

#[test]
fn center_centers_both_axes() {
    let style = anchored_style(AnchorPoint::Center);
    assert_eq!(style.top, PX0);
    assert_eq!(style.bottom, PX0);
    assert_eq!(style.left, PX0);
    assert_eq!(style.right, PX0);
    assert_eq!(style.margin.left, Length::Auto);
    assert_eq!(style.margin.right, Length::Auto);
    assert_eq!(style.margin.top, Length::Auto);
    assert_eq!(style.margin.bottom, Length::Auto);
}

#[test]
fn center_right_centers_vertically() {
    let style = anchored_style(AnchorPoint::CenterRight);
    assert_eq!(style.top, PX0);
    assert_eq!(style.bottom, PX0);
    assert_eq!(style.left, Length::Auto);
    assert_eq!(style.right, PX0);
    assert_eq!(style.margin.top, Length::Auto);
    assert_eq!(style.margin.bottom, Length::Auto);
}

#[test]
fn bottom_left_pins_bottom_edge() {
    let style = anchored_style(AnchorPoint::BottomLeft);
    assert_eq!(style.top, Length::Auto);
    assert_eq!(style.bottom, PX0);
    assert_eq!(style.left, PX0);
    assert_eq!(style.right, Length::Auto);
}

#[test]
fn bottom_center_centers_horizontally() {
    let style = anchored_style(AnchorPoint::BottomCenter);
    assert_eq!(style.top, Length::Auto);
    assert_eq!(style.bottom, PX0);
    assert_eq!(style.left, PX0);
    assert_eq!(style.right, PX0);
    assert_eq!(style.margin.left, Length::Auto);
    assert_eq!(style.margin.right, Length::Auto);
    assert_eq!(style.margin.top, margin());
    assert_eq!(style.margin.bottom, margin());
}

#[test]
fn bottom_right_pins_both_axes() {
    let style = anchored_style(AnchorPoint::BottomRight);
    assert_eq!(style.top, Length::Auto);
    assert_eq!(style.bottom, PX0);
    assert_eq!(style.left, Length::Auto);
    assert_eq!(style.right, PX0);
}

#[test]
fn relative_position_sets_only_size() {
    let mut builder = NodeBundleBuilder::default();
    let position = NodePosition::Relative {
        width: Length::Percent((50.0f32).to_bits()),
        height: Length::Auto,
    };
    position.apply_to_node(&mut builder);
    assert_eq!(builder.style.position_type, PositionType::Relative);
    assert_eq!(builder.style.width, Length::Percent((50.0f32).to_bits()));
    assert_eq!(builder.style.height, Length::Auto);
    assert_eq!(builder.style.top, Length::Auto);
    assert_eq!(builder.style.left, Length::Auto);
}

#[test]
fn absolute_position_sets_offset_and_size() {
    let mut builder = NodeBundleBuilder::default();
    let position = NodePosition::Absolute {
        x: Length::Px((3.0f32).to_bits()),
        y: Length::Px((7.0f32).to_bits()),
        width: Length::Px((10.0f32).to_bits()),
        height: Length::Px((11.0f32).to_bits()),
    };
    position.apply_to_node(&mut builder);
    assert_eq!(builder.style.position_type, PositionType::Absolute);
    assert_eq!(builder.style.left, Length::Px((3.0f32).to_bits()));
    assert_eq!(builder.style.top, Length::Px((7.0f32).to_bits()));
    assert_eq!(builder.style.width, Length::Px((10.0f32).to_bits()));
    assert_eq!(builder.style.height, Length::Px((11.0f32).to_bits()));
}
