use animus::editor::dock::{apply_output_edits, canvas_change, OutputEdits};
use animus::editor::layers::{move_layer, selection_after_delete};
use animus::editor::state::Selection;
use animus::ids::{LayerId, PuppetId};
use animus::output::config::OutputConfig;

fn ids(v: &[u64]) -> Vec<LayerId> {
    v.iter().map(|i| LayerId(*i)).collect()
}

#[test]
fn moving_a_layer_swaps_it_with_its_neighbour() {
    let order = ids(&[1, 2, 3]);
    assert_eq!(move_layer(&order, LayerId(1), 1), Some(ids(&[2, 1, 3])));
    assert_eq!(move_layer(&order, LayerId(3), -1), Some(ids(&[1, 3, 2])));
    assert_eq!(move_layer(&order, LayerId(1), 2), Some(ids(&[3, 2, 1])));
    assert_eq!(move_layer(&order, LayerId(2), 0), Some(order.clone()));
}

#[test]
fn a_move_off_either_end_or_of_a_stranger_does_nothing() {
    let order = ids(&[1, 2, 3]);
    assert_eq!(move_layer(&order, LayerId(1), -1), None);
    assert_eq!(move_layer(&order, LayerId(3), 1), None);
    assert_eq!(move_layer(&order, LayerId(9), 1), None);
    assert_eq!(move_layer(&order, LayerId(2), i32::MAX), None);
    assert_eq!(move_layer(&order, LayerId(2), i32::MIN), None);
    assert_eq!(move_layer(&Vec::new(), LayerId(1), 0), None);
}

#[test]
fn moving_back_undoes_a_move() {
    let order = ids(&[4, 5, 6, 7]);
    let up = move_layer(&order, LayerId(5), 2).unwrap();
    assert_eq!(up, ids(&[4, 7, 6, 5]));
    assert_eq!(move_layer(&up, LayerId(5), -2), Some(order));
}

#[test]
fn deleting_the_selected_layer_clears_the_selection() {
    assert_eq!(selection_after_delete(Selection::Layer(LayerId(3)), LayerId(3)), Selection::Empty);
    assert_eq!(
        selection_after_delete(Selection::Layer(LayerId(4)), LayerId(3)),
        Selection::Layer(LayerId(4))
    );
    assert_eq!(
        selection_after_delete(Selection::Puppet(PuppetId(3)), LayerId(3)),
        Selection::Puppet(PuppetId(3))
    );
}

#[test]
fn the_output_panel_writes_only_what_it_was_asked() {
    let mut cfg = OutputConfig::default();
    apply_output_edits(&mut cfg, &OutputEdits::default());
    assert_eq!(cfg, OutputConfig::default());
    let edits = OutputEdits { set_vsync: Some(false), set_fullscreen: Some(true), set_canvas: None };
    apply_output_edits(&mut cfg, &edits);
    assert!(!cfg.vsync);
    assert_eq!(cfg.fullscreen, Some(true));
    assert!(cfg.enabled);
    assert_eq!(cfg.monitor_override, None);
}

#[test]
fn an_unchanged_canvas_is_not_an_edit() {
    let edits = OutputEdits { set_vsync: None, set_fullscreen: None, set_canvas: Some([1920, 1080]) };
    assert_eq!(canvas_change([1920, 1080], &edits), None);
    assert_eq!(canvas_change([1280, 720], &edits), Some([1920, 1080]));
    assert_eq!(canvas_change([1280, 720], &OutputEdits::default()), None);
}
