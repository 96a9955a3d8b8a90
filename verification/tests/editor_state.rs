use animus::editor::dock::{canvas_request, OutputEdits};
use animus::editor::files::{route, FileAction, FileRoute, FileStatus, ProjectSaved};
use animus::editor::fit::{fit_ready, request_fit_on_load, AutoFitDone, WantsFit};
use animus::editor::hit::{Corner, CORNERS};
use animus::editor::import::{
    display_name, kind_of, kind_of_name, split_file_name, Dropped, ImportStatus,
};
use animus::editor::mode::{holds_rest, settle_plan};
use animus::editor::state::{EditMode, LeftTab, Overlays, RightTab, Selection, Tool};

#[test]
fn every_sidebar_tab_has_a_label() {
    for t in LeftTab::ALL {
        assert!(!t.label().is_empty(), "{t:?}");
    }
    for t in RightTab::ALL {
        assert!(!t.label().is_empty(), "{t:?}");
    }
}

#[test]
fn overlays_start_with_the_rig_and_toggle_one_at_a_time() {
    let mut o = Overlays::default();
    assert!(o.get(0) && o.get(1) && o.get(2));
    assert!(!o.get(3) && !o.get(4));
    o.toggle(3);
    assert!(o.get(3));
    assert!(o.get(0) && o.get(1) && o.get(2) && !o.get(4));
    o.toggle(3);
    assert_eq!(o, Overlays::default());
    // Past the last index is the last overlay.
    o.toggle(9);
    assert!(o.get(4) && o.camera);
    assert_eq!(Overlays::ALL.len(), 5);
    assert!(!Overlays::ALL[4].2, "the camera overlay has nothing behind it yet");
}

#[test]
fn tools_and_defaults() {
    assert_eq!(Tool::default(), Tool::Select);
    assert_eq!(EditMode::default(), EditMode::Rig);
    assert_eq!(Selection::default(), Selection::Empty);
    let hints: Vec<_> = Tool::ALL.iter().map(|t| t.key_hint()).collect();
    assert_eq!(hints, vec!["V", "J", "B", "P"]);
    assert_eq!(Tool::Vertex.label(), "Vertex");
}

#[test]
fn every_corner_is_its_own_and_opposites_are_diagonal() {
    let (lo, hi) = ((-2.0_f32, -1.0_f32), (4.0_f32, 3.0_f32));
    let seen: Vec<(f32, f32)> = CORNERS.into_iter().map(|c| c.of(lo, hi)).collect();
    for (i, a) in seen.iter().enumerate() {
        for b in seen.iter().skip(i + 1) {
            assert_ne!(a, b, "two corners landed on the same point");
        }
    }
    for c in CORNERS {
        assert_eq!(c.opposite().opposite(), c);
        let here = c.of(lo, hi);
        let there = c.opposite().of(lo, hi);
        assert_ne!(here.0, there.0, "the anchor must differ on both axes");
        assert_ne!(here.1, there.1);
    }
    assert_eq!(Corner::BottomLeft.of(lo, hi), (-2.0, -1.0));
    assert_eq!(Corner::TopRight.of(lo, hi), (4.0, 3.0));
}

#[test]
fn an_unsaved_project_routes_save_through_the_dialog() {
    assert!(!ProjectSaved::default().0);
    assert_eq!(route(FileAction::Save, ProjectSaved::default()), FileRoute::AskWhereToSave);
    assert_eq!(route(FileAction::Save, ProjectSaved(true)), FileRoute::WriteInPlace);
    assert_eq!(route(FileAction::SaveAs, ProjectSaved(true)), FileRoute::AskWhereToSave);
    assert_eq!(route(FileAction::Open, ProjectSaved(false)), FileRoute::AskWhatToOpen);
}

#[test]
fn status_remembers_whether_it_was_a_failure() {
    let mut s = FileStatus::default();
    s.ok("Saved");
    assert!(!s.is_error);
    s.failed("Disk full");
    assert!(s.is_error);
    assert_eq!(s.message.as_deref(), Some("Disk full"));

    let mut i = ImportStatus::default();
    i.error("could not read nope.png");
    assert!(i.is_error);
    i.ok("dancer imported");
    assert!(!i.is_error);
    assert_eq!(i.message.as_deref(), Some("dancer imported"));
}

#[test]
fn a_fit_that_cannot_be_served_stays_requested() {
    let wants = WantsFit(true);
    let mut last = [0u32, 0];
    // Two frames at one size: the size guard is satisfied, and only serving
    // the fit may take the request down.
    fit_ready(wants, [0, 0], &mut last);
    assert!(fit_ready(wants, [0, 0], &mut last));
    assert!(wants.0, "asking whether a fit can run does not consume it");
}

#[test]
fn a_resizing_viewport_defers_the_fit() {
    let wants = WantsFit(true);
    let mut last = [0u32, 0];
    for i in 1..4u32 {
        assert!(!fit_ready(wants, [100 * i, 100], &mut last), "frame {i}");
    }
    assert!(fit_ready(wants, [300, 100], &mut last), "a settled size serves it");
}

#[test]
fn auto_fit_fires_once_and_then_stays_quiet() {
    let mut wants = WantsFit::default();
    let mut done = AutoFitDone::default();

    request_fit_on_load(false, &mut wants, &mut done);
    assert!(!wants.0);
    assert!(!done.0);

    request_fit_on_load(true, &mut wants, &mut done);
    assert!(wants.0, "a puppet arrived");
    assert!(done.0);

    wants.0 = false;
    request_fit_on_load(true, &mut wants, &mut done);
    assert!(!wants.0, "auto-fit fired a second time and stole the operator's view");
}

#[test]
fn the_display_name_drops_the_extension_but_never_the_whole_name() {
    assert_eq!(display_name("dancer.png"), "dancer");
    assert_eq!(display_name("dancer"), "dancer");
    assert_eq!(display_name(".png"), ".png");
    assert_eq!(display_name("x/y.png"), "y", "the stem of the file name, not of the whole text");
}

#[test]
fn the_extension_decides_which_importer_runs() {
    assert_eq!(kind_of("a/b/crow.glb"), Some(Dropped::Model));
    assert_eq!(kind_of("a/b/crow.GLTF"), Some(Dropped::Model));
    assert_eq!(kind_of("a/b/dancer.png"), Some(Dropped::Image));
    assert_eq!(kind_of("a/b/notes.txt"), None);
    assert_eq!(kind_of("a/b/noext"), None);
}

#[test]
fn the_file_name_is_taken_before_its_extension() {
    assert_eq!(kind_of("dir/.png"), None, "a dot file has no extension");
    assert_eq!(kind_of("crow.glb/"), Some(Dropped::Model));
    assert_eq!(kind_of("a/crow.glb/."), Some(Dropped::Model));
    assert_eq!(kind_of("a/.."), None);
    assert_eq!(kind_of_name("crow.glb"), Some(Dropped::Model));
    assert_eq!(kind_of_name("dir/.png"), Some(Dropped::Image));
}

#[test]
fn file_names_split_at_their_last_dot() {
    assert_eq!(split_file_name("a.b.c"), ("a.b".to_string(), Some("c".to_string())));
    assert_eq!(split_file_name("dancer."), ("dancer".to_string(), Some(String::new())));
    assert_eq!(split_file_name(".png"), (".png".to_string(), None));
    assert_eq!(split_file_name(".."), ("..".to_string(), None));
    assert_eq!(kind_of_name("Photo.JPEG"), Some(Dropped::Image));
}

#[test]
fn startup_is_not_a_mode_change() {
    let mut last = None;
    let plan = settle_plan(&mut last, EditMode::Rig, 0, false);
    assert!(
        !plan.clear_targets && !plan.stop_sequencer && !plan.reset_to_rest,
        "the first frame settled a show it had no reason to touch"
    );
    assert_eq!(last, Some((EditMode::Rig, 0)));
}

#[test]
fn entering_rig_lets_go_of_everything_the_performance_was_holding() {
    let mut last = None;
    settle_plan(&mut last, EditMode::Live, 0, false);
    let plan = settle_plan(&mut last, EditMode::Rig, 0, false);
    assert!(plan.clear_targets);
    assert!(plan.release_held);
    assert!(plan.stop_sequencer, "and stopped");
    assert!(plan.reset_to_rest && plan.end_drag);
    assert!(holds_rest(EditMode::Rig) && !holds_rest(EditMode::Live));
}

#[test]
fn entering_perform_leaves_everything_alone() {
    let mut last = None;
    settle_plan(&mut last, EditMode::Rig, 0, false);
    let plan = settle_plan(&mut last, EditMode::Live, 0, false);
    assert!(!plan.clear_targets && !plan.release_held && !plan.stop_sequencer);
    assert!(!plan.reset_to_rest);
}

#[test]
fn selecting_a_step_in_edit_shows_that_step() {
    let mut last = None;
    settle_plan(&mut last, EditMode::Rig, 0, false);
    settle_plan(&mut last, EditMode::Edit, 0, false);
    let plan = settle_plan(&mut last, EditMode::Edit, 2, true);
    assert!(
        plan.show_step_pose && plan.clear_targets,
        "the puppet must be showing the step that is being edited"
    );
    // An empty step chosen while already in Edit leaves the pose alone.
    let plan = settle_plan(&mut last, EditMode::Edit, 3, false);
    assert!(!plan.clear_targets && !plan.reset_to_rest && !plan.show_step_pose);
}

#[test]
fn the_resolution_fields_never_ask_for_a_tiny_stage() {
    assert_eq!(canvas_request(1920, 1080), [1920, 1080]);
    assert_eq!(canvas_request(0, 5), [16, 16]);
    assert_eq!(OutputEdits::default(), OutputEdits { set_vsync: None, set_fullscreen: None, set_canvas: None });
}
