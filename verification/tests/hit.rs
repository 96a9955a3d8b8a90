use animus::editor::hit::{
    layer_of, layer_visible, mesh_triangles, puppet_at, puppet_visible, LayerView,
};
use animus::ids::{LayerId, PuppetId};

fn layer(id: u64, visible: bool, contents: &[u64]) -> LayerView {
    LayerView { id: LayerId(id), visible, contents: contents.iter().map(|p| PuppetId(*p)).collect() }
}

#[test]
fn a_ragged_triangle_list_is_ignored_rather_than_panicking() {
    let mut tri = vec![0, 1, 2, 0, 2, 3];
    tri.push(99);
    assert_eq!(mesh_triangles(4, &tri), vec![(0, 1, 2), (0, 2, 3)]);
    // An index past the end must not be read.
    assert!(mesh_triangles(4, &[0, 1, 99]).is_empty());
    assert_eq!(mesh_triangles(4, &[0, 1, 99, 1, 2, 3]), vec![(1, 2, 3)]);
    assert!(mesh_triangles(0, &[]).is_empty());
}

#[test]
fn a_puppet_on_no_layer_is_visible() {
    let layers: Vec<LayerView> = Vec::new();
    assert!(puppet_visible(&layers, PuppetId(1)));
    let layers = vec![layer(3, false, &[2])];
    assert!(puppet_visible(&layers, PuppetId(1)));
}

#[test]
fn hiding_a_layer_hides_every_puppet_on_it() {
    let layers = vec![layer(3, false, &[7, 8]), layer(4, true, &[9])];
    assert!(!puppet_visible(&layers, PuppetId(7)));
    assert!(!puppet_visible(&layers, PuppetId(8)));
    assert!(puppet_visible(&layers, PuppetId(9)));
    assert_eq!(layer_of(&layers, PuppetId(8)), Some(LayerId(3)));
    assert_eq!(layer_of(&layers, PuppetId(1)), None);
    assert!(!layer_visible(&layers, LayerId(3)));
    assert!(layer_visible(&layers, LayerId(4)));
    assert!(!layer_visible(&layers, LayerId(5)), "a layer that does not exist is not on the stage");
}

#[test]
fn the_front_most_puppet_takes_the_click() {
    let layers = vec![layer(1, true, &[10, 11]), layer(2, true, &[20])];
    let order = vec![LayerId(1), LayerId(2)];
    // Both layers are hit: the one drawn last is on top.
    let hits = vec![PuppetId(10), PuppetId(20)];
    assert_eq!(puppet_at(&order, &layers, &hits), Some((PuppetId(20), LayerId(2))));
    // Within a layer, later contents are in front.
    let hits = vec![PuppetId(10), PuppetId(11)];
    assert_eq!(puppet_at(&order, &layers, &hits), Some((PuppetId(11), LayerId(1))));
    assert_eq!(puppet_at(&order, &layers, &Vec::new()), None);
}

#[test]
fn a_hidden_layer_is_not_clickable() {
    let layers = vec![layer(1, true, &[10]), layer(2, false, &[20])];
    let order = vec![LayerId(1), LayerId(2)];
    let hits = vec![PuppetId(10), PuppetId(20)];
    assert_eq!(puppet_at(&order, &layers, &hits), Some((PuppetId(10), LayerId(1))));
    let hits = vec![PuppetId(20)];
    assert_eq!(puppet_at(&order, &layers, &hits), None);
    // A stacked id with no record is passed over.
    let order = vec![LayerId(1), LayerId(9)];
    assert_eq!(puppet_at(&order, &layers, &vec![PuppetId(10)]), Some((PuppetId(10), LayerId(1))));
}
