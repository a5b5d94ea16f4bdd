//! Node-tree compilation: element counts, parent links, styles, aspects
//! and asset requests.

use streamline_ui::assets::{AssetServer, FontRef, ImageHandle};
use streamline_ui::blocks::background::{NodeBackground, NodeTextureScaling};
use streamline_ui::blocks::children::NodeChildren;
use streamline_ui::blocks::position::{AnchorPoint, NodePosition};
use streamline_ui::blocks::text::{NodeText, NodeTextSection};
use streamline_ui::blocks::text_field::NodeTextField;
use streamline_ui::builders::bundle::NodeBundleType;
use streamline_ui::geometry::{
    AlignContent, AlignItems, ImageScaleMode, JustifyContent, JustifyItems, Length, PositionType,
    Rgba,
};
use streamline_ui::nodes::UiNode;
use streamline_ui::scene::Scene;
use streamline_ui::text::{JustifyText, LineBreak};

fn chars(s: &str) -> Vec<char> {
    s.chars().collect()
}

#[test]
fn canvas_compiles_full_bleed() {
    let mut scene = Scene::new();
    let mut assets = AssetServer::new();
    let node = UiNode::Canvas { children: NodeChildren { children: Vec::new() } };
    node.build(&mut scene, &mut assets);

    assert_eq!(scene.elements.len(), 1);
    let element = &scene.elements[0];
    assert_eq!(element.kind, NodeBundleType::Node);
    assert_eq!(element.parent, None);
    assert_eq!(element.style.top, Length::Px((0.0f32).to_bits()));
    assert_eq!(element.style.left, Length::Px((0.0f32).to_bits()));
    assert_eq!(element.style.width, Length::Percent((100.0f32).to_bits()));
    assert_eq!(element.style.height, Length::Percent((100.0f32).to_bits()));
    assert!(element.background_color.is_none());
    assert!(element.text.is_none());
    assert!(element.text_field.is_none());
    assert_eq!(assets.requests.len(), 0);
}

#[test]
fn panel_children_are_parented_in_order() {
    let mut scene = Scene::new();
    let mut assets = AssetServer::new();
    let child_a = UiNode::Panel {
        background: NodeBackground::Empty,
        position: NodePosition::default(),
        children: NodeChildren { children: Vec::new() },
    };
    let child_b = UiNode::Panel {
        background: NodeBackground::Empty,
        position: NodePosition::default(),
        children: NodeChildren { children: Vec::new() },
    };
    let root = UiNode::Canvas {
        children: NodeChildren { children: vec![child_a, child_b] },
    };
    root.build(&mut scene, &mut assets);

    assert_eq!(scene.elements.len(), 3);
    assert_eq!(scene.elements[0].parent, None);
    assert_eq!(scene.elements[1].parent, Some(0));
    assert_eq!(scene.elements[2].parent, Some(0));
}

#[test]
fn panel_color_background_becomes_a_fill() {
    let mut scene = Scene::new();
    let mut assets = AssetServer::new();
    let color = Rgba {
        r: (0.25f32).to_bits(),
        g: (0.5f32).to_bits(),
        b: (0.75f32).to_bits(),
        a: (1.0f32).to_bits(),
    };
    let node = UiNode::Panel {
        background: NodeBackground::Color { color },
        position: NodePosition::default(),
        children: NodeChildren { children: Vec::new() },
    };
    node.build(&mut scene, &mut assets);

    assert_eq!(scene.elements.len(), 1);
    let element = &scene.elements[0];
    assert_eq!(element.kind, NodeBundleType::Node);
    assert_eq!(element.background_color, Some(color));
    assert!(element.image.is_none());
    assert!(element.scale_mode.is_none());
    assert_eq!(assets.requests.len(), 0);
}

#[test]
fn panel_image_background_requests_the_asset() {
    let mut scene = Scene::new();
    let mut assets = AssetServer::new();
    let tint = Rgba {
        r: (0.0f32).to_bits(),
        g: (0.0f32).to_bits(),
        b: (0.0f32).to_bits(),
        a: (0.5f32).to_bits(),
    };
    let node = UiNode::Panel {
        background: NodeBackground::Image {
            img: String::from("ui/rounded_panel.png"),
            tint,
            tex_scaling: NodeTextureScaling::Tiled {
                tile_x: true,
                tile_y: false,
                stretch_value: (1.0f32).to_bits(),
            },
        },
        position: NodePosition::default(),
        children: NodeChildren { children: Vec::new() },
    };
    node.build(&mut scene, &mut assets);

    assert_eq!(assets.requests.len(), 1);
    assert_eq!(assets.requests[0], "ui/rounded_panel.png");
    let element = &scene.elements[0];
    assert_eq!(element.kind, NodeBundleType::Image);
    assert_eq!(element.image, Some(ImageHandle { id: 0 }));
    assert_eq!(element.background_color, Some(tint));
    assert_eq!(
        element.scale_mode,
        Some(ImageScaleMode::Tiled { tile_x: true, tile_y: false, stretch_value: (1.0f32).to_bits() })
    );
}

#[test]
fn text_node_always_yields_container_then_content() {
    let mut scene = Scene::new();
    let mut assets = AssetServer::new();
    let node = UiNode::Text {
        background: NodeBackground::Empty,
        position: NodePosition::default(),
        text: NodeText {
            anchor_point: AnchorPoint::TopRight,
            sections: vec![NodeTextSection {
                text: chars("hi"),
                font: String::from("fonts/a.ttf"),
                text_size: (32.0f32).to_bits(),
                color: Rgba::black(),
            }],
            line_break: LineBreak::NoWrap,
        },
    };
    node.build(&mut scene, &mut assets);

    assert_eq!(scene.elements.len(), 2);
    let container = &scene.elements[0];
    let content = &scene.elements[1];
    assert_eq!(container.parent, None);
    assert_eq!(content.parent, Some(0));
    assert_eq!(content.kind, NodeBundleType::Text);
    // the container picked up the anchor's alignment pair
    assert_eq!(container.style.align_content, AlignContent::FlexStart);
    assert_eq!(container.style.justify_content, JustifyContent::End);
    assert_eq!(container.style.align_items, AlignItems::FlexStart);
    assert_eq!(container.style.justify_items, JustifyItems::End);
    // the content element carries the assembled text
    let text = content.text.as_ref().expect("content element has text");
    assert_eq!(text.justify, JustifyText::Right);
    assert_eq!(text.linebreak, LineBreak::NoWrap);
    assert_eq!(text.sections.len(), 1);
    assert_eq!(text.sections[0].value, chars("hi"));
    assert_eq!(text.sections[0].style.font, FontRef::Asset(0));
    assert_eq!(text.sections[0].style.font_size, (32.0f32).to_bits());
    assert_eq!(assets.requests.len(), 1);
    assert_eq!(assets.requests[0], "fonts/a.ttf");
}

#[test]
fn empty_text_node_still_yields_two_elements() {
    let mut scene = Scene::new();
    let mut assets = AssetServer::new();
    let node = UiNode::Text {
        background: NodeBackground::Empty,
        position: NodePosition::default(),
        text: NodeText::default(),
    };
    node.build(&mut scene, &mut assets);

    assert_eq!(scene.elements.len(), 2);
    let content = &scene.elements[1];
    assert_eq!(content.parent, Some(0));
    let text = content.text.as_ref().expect("content element has text");
    assert_eq!(text.sections.len(), 0);
}

#[test]
fn text_field_node_attaches_field_state() {
    let mut scene = Scene::new();
    let mut assets = AssetServer::new();
    let node = UiNode::TextField {
        background: NodeBackground::Empty,
        position: NodePosition::default(),
        text_field: NodeTextField {
            font: String::from("fonts/mono.ttf"),
            font_size: (20.0f32).to_bits(),
            color: Rgba::black(),
            max_chars: Some(12),
            single_line: true,
            placeholder: Some(String::from("Enter your name")),
            placeholder_color: Rgba::gray(),
            anchor_point: AnchorPoint::CenterLeft,
            line_break: LineBreak::WordBoundary,
        },
    };
    node.build(&mut scene, &mut assets);

    assert_eq!(scene.elements.len(), 2);
    let container = &scene.elements[0];
    let content = &scene.elements[1];
    assert_eq!(content.parent, Some(0));
    assert_eq!(container.style.align_content, AlignContent::Center);
    assert_eq!(container.style.justify_content, JustifyContent::Start);

    let text = content.text.as_ref().expect("content element has text");
    assert_eq!(text.sections.len(), 0);
    assert_eq!(text.justify, JustifyText::Left);

    let field = content.text_field.as_ref().expect("content element has field state");
    assert_eq!(field.font, FontRef::Asset(0));
    assert_eq!(field.font_size, (20.0f32).to_bits());
    assert_eq!(field.text.len(), 0);
    assert_eq!(field.cursor_pos, 0);
    assert!(!field.active);
    assert!(field.cursor_blink);
    assert!(field.selection.is_none());
    assert_eq!(field.placeholder_text.as_deref(), Some("Enter your name"));

    assert_eq!(assets.requests.len(), 1);
    assert_eq!(assets.requests[0], "fonts/mono.ttf");
}

#[test]
fn nested_tree_compiles_in_spawn_order() {
    let mut scene = Scene::new();
    let mut assets = AssetServer::new();
    let text_child = UiNode::Text {
        background: NodeBackground::Empty,
        position: NodePosition::default(),
        text: NodeText {
            anchor_point: AnchorPoint::Center,
            sections: vec![NodeTextSection {
                text: chars("title"),
                font: String::from("fonts/b.ttf"),
                text_size: (16.0f32).to_bits(),
                color: Rgba::black(),
            }],
            line_break: LineBreak::WordBoundary,
        },
    };
    let panel = UiNode::Panel {
        background: NodeBackground::Image {
            img: String::from("panel.png"),
            tint: Rgba::default(),
            tex_scaling: NodeTextureScaling::Stretched,
        },
        position: NodePosition::Anchored {
            anchor: AnchorPoint::CenterLeft,
            width: Length::Px((200.0f32).to_bits()),
            height: Length::Px((200.0f32).to_bits()),
            margin: Length::Px((5.0f32).to_bits()),
        },
        children: NodeChildren { children: vec![text_child] },
    };
    let root = UiNode::Canvas { children: NodeChildren { children: vec![panel] } };
    root.build(&mut scene, &mut assets);

    // canvas, panel, text container, text content
    assert_eq!(scene.elements.len(), 4);
    assert_eq!(scene.elements[0].parent, None);
    assert_eq!(scene.elements[1].parent, Some(0));
    assert_eq!(scene.elements[2].parent, Some(1));
    assert_eq!(scene.elements[3].parent, Some(2));
    assert_eq!(scene.elements[1].kind, NodeBundleType::Image);
    assert_eq!(scene.elements[1].style.position_type, PositionType::Absolute);
    // requests in request order: panel image first, then the section font
    assert_eq!(assets.requests.len(), 2);
    assert_eq!(assets.requests[0], "panel.png");
    assert_eq!(assets.requests[1], "fonts/b.ttf");
    let text = scene.elements[3].text.as_ref().expect("text content");
    assert_eq!(text.sections[0].style.font, FontRef::Asset(1));
}
