//! The per-node accumulator and the scene arena.

use streamline_ui::assets::AssetServer;
use streamline_ui::builders::bundle::{ComponentWrite, NodeBundleBuilder, NodeBundleType};
use streamline_ui::geometry::{Length, Rgba};
use streamline_ui::scene::Scene;

#[test]
fn builder_defaults_are_a_plain_root_node() {
    let builder = NodeBundleBuilder::default();
    assert_eq!(builder.parent, None);
    assert_eq!(builder.bundle, NodeBundleType::Node);
    assert_eq!(builder.components.len(), 0);
    assert_eq!(builder.children.len(), 0);
    assert_eq!(builder.style.width, Length::Auto);
}

#[test]
fn builder_resolves_into_one_element() {
    let mut scene = Scene::new();
    let mut assets = AssetServer::new();
    let mut builder = NodeBundleBuilder::default();
    builder.bundle_type(NodeBundleType::Button);
    builder.set_parent(None);
    builder.get_style_mut().width = Length::Px((9.0f32).to_bits());
    builder.insert(ComponentWrite::Background(Rgba::gray()));
    let id = builder.build(&mut scene, &mut assets);

    assert_eq!(id, 0);
    assert_eq!(scene.len(), 1);
    let element = &scene.elements[0];
    assert_eq!(element.kind, NodeBundleType::Button);
    assert_eq!(element.style.width, Length::Px((9.0f32).to_bits()));
    assert_eq!(element.background_color, Some(Rgba::gray()));
}

#[test]
fn later_writes_of_an_aspect_win() {
    let mut scene = Scene::new();
    let mut assets = AssetServer::new();
    let mut builder = NodeBundleBuilder::default();
    builder.insert(ComponentWrite::Background(Rgba::gray()));
    builder.insert(ComponentWrite::Background(Rgba::black()));
    builder.build(&mut scene, &mut assets);
    assert_eq!(scene.elements[0].background_color, Some(Rgba::black()));
}

#[test]
fn scene_spawn_order_is_identifier_order() {
    let mut scene = Scene::new();
    let mut assets = AssetServer::new();
    let first = NodeBundleBuilder::default().build(&mut scene, &mut assets);
    let second = NodeBundleBuilder::default().build(&mut scene, &mut assets);
    assert_eq!(first, 0);
    assert_eq!(second, 1);
    assert_eq!(scene.len(), 2);
}
