//! The fluent builder layer: assembling node descriptions and the value
//! conversions into the data model.

use streamline_ui::blocks::background::{NodeBackground, NodeTextureScaling};
use streamline_ui::blocks::position::{AnchorPoint, NodePosition};
use streamline_ui::blocks::text::NodeText;
use streamline_ui::blocks::text_field::NodeTextField;
use streamline_ui::builders::background::BackgroundBuilder;
use streamline_ui::builders::node::UiNodeBuilder;
use streamline_ui::builders::position::PositionBuilder;
use streamline_ui::builders::tex_scaling::TexScalingBuilder;
use streamline_ui::builders::text::{TextBuilder, TextSectionBuilder};
use streamline_ui::builders::text_field::TextFieldBuilder;
use streamline_ui::geometry::{
    Length, Rgba, SliceScaleMode, FLOAT_BITS_HALF, FLOAT_BITS_HUNDRED, FLOAT_BITS_ONE,
    FLOAT_BITS_SIXTEEN, FLOAT_BITS_ZERO,
};
use streamline_ui::nodes::UiNode;
use streamline_ui::text::LineBreak;

fn chars(s: &str) -> Vec<char> {
    s.chars().collect()
}

#[test]
fn float_bit_constants_match_the_host_floats() {
    assert_eq!(FLOAT_BITS_ZERO, (0.0f32).to_bits());
    assert_eq!(FLOAT_BITS_HALF, (0.5f32).to_bits());
    assert_eq!(FLOAT_BITS_ONE, (1.0f32).to_bits());
    assert_eq!(FLOAT_BITS_SIXTEEN, (16.0f32).to_bits());
    assert_eq!(FLOAT_BITS_HUNDRED, (100.0f32).to_bits());
}

#[test]
fn color_values_match_the_host_floats() {
    let black = Rgba::black();
    assert_eq!(black.r, (0.0f32).to_bits());
    assert_eq!(black.a, (1.0f32).to_bits());
    let gray = Rgba::gray();
    assert_eq!(gray.r, (0.5f32).to_bits());
    assert_eq!(gray.g, (0.5f32).to_bits());
    let blue = Rgba::blue();
    assert_eq!(blue.b, (1.0f32).to_bits());
    assert_eq!(blue.r, (0.0f32).to_bits());
    let white = Rgba::default();
    assert_eq!(white.r, (1.0f32).to_bits());
}

#[test]
fn position_builders_produce_each_variant() {
    let relative: NodePosition = PositionBuilder::relative()
        .size(Length::Px((300.0f32).to_bits()), Length::Auto)
        .into();
    assert!(matches!(
        relative,
        NodePosition::Relative { width: Length::Px(w), height: Length::Auto }
            if w == (300.0f32).to_bits()
    ));

    let absolute: NodePosition = PositionBuilder::absolute()
        .pos(Length::Px((1.0f32).to_bits()), Length::Px((2.0f32).to_bits()))
        .size(Length::Px((3.0f32).to_bits()), Length::Px((4.0f32).to_bits()))
        .into();
    assert!(matches!(absolute, NodePosition::Absolute { .. }));

    let full: NodePosition = PositionBuilder::absolute().full_size().into();
    assert!(matches!(
        full,
        NodePosition::Absolute {
            x: Length::Px(x),
            y: Length::Px(y),
            width: Length::Percent(w),
            height: Length::Percent(h),
        } if x == 0 && y == 0 && w == (100.0f32).to_bits() && h == (100.0f32).to_bits()
    ));

    let anchored: NodePosition = PositionBuilder::anchored(AnchorPoint::CenterLeft)
        .size(Length::Px((200.0f32).to_bits()), Length::Px((200.0f32).to_bits()))
        .margin(Length::Px((5.0f32).to_bits()))
        .into();
    assert!(matches!(
        anchored,
        NodePosition::Anchored { anchor: AnchorPoint::CenterLeft, margin: Length::Px(m), .. }
            if m == (5.0f32).to_bits()
    ));
}

#[test]
fn background_builders_produce_each_variant() {
    let none: NodeBackground = BackgroundBuilder::none().into();
    assert!(matches!(none, NodeBackground::Empty));

    let color: NodeBackground = BackgroundBuilder::color(Rgba::gray()).into();
    assert!(matches!(color, NodeBackground::Color { color } if color == Rgba::gray()));

    let image: NodeBackground = BackgroundBuilder::image(String::from("ui/p.png"))
        .tint(Rgba::black())
        .texture_scaling(TexScalingBuilder.stretch().into())
        .into();
    match image {
        NodeBackground::Image { img, tint, tex_scaling } => {
            assert_eq!(img, "ui/p.png");
            assert_eq!(tint, Rgba::black());
            assert!(matches!(tex_scaling, NodeTextureScaling::Stretched));
        }
        _ => panic!("expected an image background"),
    }
}

#[test]
fn texture_scaling_builders_produce_each_variant() {
    let tiled: NodeTextureScaling = TexScalingBuilder
        .tiled()
        .tile_horizontally()
        .stretch_value((2.0f32).to_bits())
        .into();
    assert!(matches!(
        tiled,
        NodeTextureScaling::Tiled { tile_x: true, tile_y: false, stretch_value }
            if stretch_value == (2.0f32).to_bits()
    ));

    let sliced: NodeTextureScaling = TexScalingBuilder
        .sliced()
        .border((8.0f32).to_bits())
        .top_border((2.0f32).to_bits())
        .tile_center((1.5f32).to_bits())
        .max_corner_scale((2.0f32).to_bits())
        .into();
    match sliced {
        NodeTextureScaling::Sliced { slicer } => {
            assert_eq!(slicer.border.top, (2.0f32).to_bits());
            assert_eq!(slicer.border.left, (8.0f32).to_bits());
            assert_eq!(slicer.border.bottom, (8.0f32).to_bits());
            assert_eq!(slicer.center_scale_mode, SliceScaleMode::Tile((1.5f32).to_bits()));
            assert_eq!(slicer.sides_scale_mode, SliceScaleMode::Stretch);
            assert_eq!(slicer.max_corner_scale, (2.0f32).to_bits());
        }
        _ => panic!("expected a sliced scaling"),
    }
}

#[test]
fn text_builder_collects_sections() {
    let text: NodeText = TextBuilder::default()
        .anchor_point(AnchorPoint::Center)
        .section(
            TextSectionBuilder::new(chars("Streamline\nUI"))
                .font(String::from("fonts/FiraMono-Medium.ttf"))
                .color(Rgba::default())
                .text_size((32.0f32).to_bits()),
        )
        .line_break(LineBreak::AnyCharacter)
        .into();
    assert_eq!(text.anchor_point, AnchorPoint::Center);
    assert_eq!(text.line_break, LineBreak::AnyCharacter);
    assert_eq!(text.sections.len(), 1);
    assert_eq!(text.sections[0].text, chars("Streamline\nUI"));
    assert_eq!(text.sections[0].font, "fonts/FiraMono-Medium.ttf");
    assert_eq!(text.sections[0].text_size, (32.0f32).to_bits());
    assert_eq!(text.sections[0].color, Rgba::default());
}

#[test]
fn text_section_builder_defaults() {
    let section = TextSectionBuilder::new(chars("x"));
    assert_eq!(section.font, "");
    assert_eq!(section.text_size, (16.0f32).to_bits());
    assert_eq!(section.color, Rgba::black());
}

#[test]
fn text_field_builder_collects_configuration() {
    let field: NodeTextField = TextFieldBuilder::default()
        .font(String::from("fonts/FiraMono-Medium.ttf"))
        .font_size((20.0f32).to_bits())
        .color(Rgba::black())
        .max_chars(32)
        .single_line()
        .placeholder_text(String::from("Enter your name"))
        .placeholder_color(Rgba::gray())
        .anchor_point(AnchorPoint::Center)
        .line_break(LineBreak::NoWrap)
        .into();
    assert_eq!(field.font, "fonts/FiraMono-Medium.ttf");
    assert_eq!(field.font_size, (20.0f32).to_bits());
    assert_eq!(field.max_chars, Some(32));
    assert!(field.single_line);
    assert_eq!(field.placeholder.as_deref(), Some("Enter your name"));
    assert_eq!(field.anchor_point, AnchorPoint::Center);
    assert_eq!(field.line_break, LineBreak::NoWrap);

    let defaults: NodeTextField = TextFieldBuilder::default().into();
    assert_eq!(defaults.font, "");
    assert_eq!(defaults.font_size, (16.0f32).to_bits());
    assert_eq!(defaults.color, Rgba::black());
    assert_eq!(defaults.max_chars, None);
    assert!(!defaults.single_line);
    assert_eq!(defaults.anchor_point, AnchorPoint::CenterLeft);
}

#[test]
fn node_builders_assemble_a_tree() {
    let tree: UiNode = UiNodeBuilder::canvas()
        .child(
            UiNodeBuilder::panel()
                .background(BackgroundBuilder::color(Rgba::gray()).into())
                .position(PositionBuilder::anchored(AnchorPoint::Center).into())
                .child(UiNodeBuilder::text(NodeText::default()).into())
                .child(
                    UiNodeBuilder::text_field(TextFieldBuilder::default().into())
                        .background(BackgroundBuilder::color(Rgba::default()).into())
                        .into(),
                )
                .into(),
        )
        .into();

    match tree {
        UiNode::Canvas { children } => {
            assert_eq!(children.children.len(), 1);
            match &children.children[0] {
                UiNode::Panel { background, position, children } => {
                    assert!(matches!(background, NodeBackground::Color { .. }));
                    assert!(matches!(position, NodePosition::Anchored { .. }));
                    assert_eq!(children.children.len(), 2);
                    assert!(matches!(children.children[0], UiNode::Text { .. }));
                    assert!(matches!(children.children[1], UiNode::TextField { .. }));
                }
                _ => panic!("expected a panel"),
            }
        }
        _ => panic!("expected a canvas"),
    }
}

#[test]
fn panel_builder_defaults_apply_when_unset() {
    let node: UiNode = UiNodeBuilder::panel().into();
    match node {
        UiNode::Panel { background, position, children } => {
            assert!(matches!(background, NodeBackground::Empty));
            assert!(matches!(
                position,
                NodePosition::Relative { width: Length::Auto, height: Length::Auto }
            ));
            assert_eq!(children.children.len(), 0);
        }
        _ => panic!("expected a panel"),
    }
}
