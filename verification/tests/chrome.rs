use animus::editor::chrome::{
    mode_label, mode_sentence, puppet_summary, stage_badge, viewport_instruction, PuppetOutline,
    RigCounts, Stage, STAGES, stage_tip,
};
use animus::editor::state::{EditMode, Tool};

#[test]
fn every_stage_is_its_own_mode_and_back() {
    for stage in STAGES {
        assert_eq!(Stage::of(stage.mode()), stage, "{stage:?}");
    }
    for mode in [EditMode::Rig, EditMode::Edit, EditMode::Live] {
        assert_eq!(Stage::of(mode).mode(), mode, "{mode:?}");
    }
}

#[test]
fn only_rig_arms_an_authoring_tool() {
    assert_eq!(Stage::Rig.tool(), Tool::Joint);
    assert_eq!(Stage::Edit.tool(), Tool::Select);
    assert_eq!(Stage::Perform.tool(), Tool::Select);
}

#[test]
fn an_unrigged_project_can_only_be_rigged() {
    let project: Vec<PuppetOutline> = Vec::new();
    assert!(!Stage::Rig.complete(&project));
    assert!(Stage::Rig.available(&project));
    assert!(!Stage::Edit.available(&project));
    assert!(!Stage::Perform.available(&project));
}

#[test]
fn the_summary_says_so_when_there_is_no_puppet() {
    assert_eq!(puppet_summary(&Vec::new()), "No puppet yet");
}

#[test]
fn each_mode_says_something_different_about_the_same_gesture() {
    let labels: Vec<_> = STAGES.iter().map(|s| s.label()).collect();
    let hints: Vec<_> = STAGES.iter().map(|s| s.hint()).collect();
    for (i, a) in labels.iter().enumerate() {
        for b in labels.iter().skip(i + 1) {
            assert_ne!(a, b);
        }
    }
    for (i, a) in hints.iter().enumerate() {
        for b in hints.iter().skip(i + 1) {
            assert_ne!(a, b);
        }
    }
    let verbs: Vec<_> = [EditMode::Rig, EditMode::Edit, EditMode::Live]
        .iter()
        .map(|m| viewport_instruction(*m).0)
        .collect();
    assert_eq!(verbs, vec!["RIG", "POSE", "PULL"]);
    assert!(viewport_instruction(EditMode::Rig).1.contains("saved rig"));
    assert!(viewport_instruction(EditMode::Live).1.contains("Nothing is written"));
}

fn mesh(name: &str, joints: usize, bones: usize, triangle_indices: usize) -> PuppetOutline {
    PuppetOutline {
        name: name.to_string(),
        mesh: Some(RigCounts { joints, bones, triangle_indices }),
    }
}

#[test]
fn a_rig_needs_two_joints_and_a_bone_before_posing() {
    let one_joint = vec![mesh("a", 1, 0, 3)];
    assert!(!Stage::Rig.complete(&one_joint));
    assert!(!Stage::Edit.available(&one_joint));

    let model = PuppetOutline { name: "crow".to_string(), mesh: None };
    let rigged = vec![model, mesh("dancer", 2, 1, 6)];
    assert!(Stage::Rig.complete(&rigged));
    assert!(Stage::Edit.available(&rigged));
    assert!(Stage::Perform.available(&rigged));
    assert!(!Stage::Edit.complete(&rigged), "a pattern is never finished");
    assert!(!Stage::Perform.complete(&rigged), "and a show is never over");
}

#[test]
fn the_summary_counts_the_first_mesh_puppet() {
    let puppets = vec![
        PuppetOutline { name: "crow".to_string(), mesh: None },
        mesh("dancer", 12, 11, 300),
        mesh("other", 1, 0, 3),
    ];
    assert_eq!(puppet_summary(&puppets), "dancer · 12 joints · 11 bones · 100 tris");
}

#[test]
fn stages_are_numbered_and_explain_what_they_need() {
    assert_eq!(
        STAGES.iter().map(|s| s.number()).collect::<Vec<_>>(),
        vec![1, 2, 3]
    );
    assert_eq!(Stage::Rig.requirement(), "Drop a PNG on the viewport to begin.");
    assert_eq!(
        Stage::Edit.requirement(),
        "Rig the puppet first: at least two joints and one bone."
    );
    assert_eq!(mode_label(EditMode::Live), "PERFORM");
    assert_eq!(mode_sentence(EditMode::Rig), Stage::Rig.hint());
    assert_eq!(stage_badge(EditMode::Edit), "STEP EDITOR");
    assert_eq!(stage_badge(EditMode::Live), "STAGE · AUDIENCE VIEW");
}

#[test]
fn a_stage_tab_explains_itself() {
    assert_eq!(stage_tip(Stage::Edit, false, false), "Rig the puppet first: at least two joints and one bone.");
    assert_eq!(stage_tip(Stage::Perform, true, false), Stage::Perform.hint());
    assert_eq!(stage_tip(Stage::Rig, true, true), Stage::Rig.hint());
    assert_eq!(
        stage_tip(Stage::Rig, true, false),
        format!("{}\n{}", Stage::Rig.hint(), Stage::Rig.requirement())
    );
}
