use animus::editor::icons::Icon;
use animus::editor::theme::gizmo;
use animus::editor::theme::{
    BRIGHT, CAUTION_AMBER, DATA_CYAN, DIM, FAINT, GHOST, GO_BUTTON, GO_GREEN, GROUP_VIOLET, INK,
    LIVE_CORAL, MID, SOFT, SUB, WORKSPACE,
};

#[test]
fn the_eye_says_hidden_with_form_rather_than_only_colour() {
    assert_ne!(Icon::Eye, Icon::EyeOff);
}

/// Contrast against `WORKSPACE`, the surface most text sits on.
fn contrast(fg: u32, bg: u32) -> f32 {
    fn channel(c: u8) -> f32 {
        let c = c as f32 / 255.0;
        if c <= 0.03928 {
            c / 12.92
        } else {
            ((c + 0.055) / 1.055).powf(2.4)
        }
    }
    fn luminance(c: u32) -> f32 {
        let r = (c >> 24) as u8;
        let g = (c >> 16) as u8;
        let b = (c >> 8) as u8;
        0.2126 * channel(r) + 0.7152 * channel(g) + 0.0722 * channel(b)
    }
    let (a, b) = (luminance(fg), luminance(bg));
    let (hi, lo) = if a > b { (a, b) } else { (b, a) };
    (hi + 0.05) / (lo + 0.05)
}

#[test]
fn every_ink_above_the_floor_is_actually_readable() {
    for (name, c) in [
        ("BRIGHT", BRIGHT),
        ("INK", INK),
        ("MID", MID),
        ("SOFT", SOFT),
        ("SUB", SUB),
        ("DIM", DIM),
    ] {
        let ratio = contrast(c, WORKSPACE);
        assert!(
            ratio >= 4.5,
            "{name} is {ratio:.2}:1 on the workspace surface, below the 4.5:1 floor"
        );
    }
}

#[test]
fn faint_and_ghost_are_below_the_floor_which_is_why_they_are_decoration_only() {
    assert!(contrast(FAINT, WORKSPACE) < 4.5);
    assert!(contrast(GHOST, WORKSPACE) < 4.5);
}

#[test]
fn gizmo_colours_never_borrow_a_signal_colour() {
    for c in [gizmo::WIREFRAME, gizmo::BONE, gizmo::JOINT, gizmo::PINNED] {
        assert!(
            ![GO_GREEN, GO_BUTTON, LIVE_CORAL, CAUTION_AMBER, GROUP_VIOLET].contains(&c),
            "{c:?} is a signal colour being used as decoration"
        );
    }
    assert_eq!(gizmo::BOUND, DATA_CYAN, "a bound joint is I/O");
    assert_eq!(gizmo::DRIVEN, LIVE_CORAL, "a driven joint is live");
}
