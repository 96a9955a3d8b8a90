use animus::editor::files::{
    project_folder,
    cancelled_status, file_shortcut, folder_label, open_failed_status, opened_status,
    save_failed_status, saved_status, short, suggested_name, window_title, FileAction, FileKeys,
    FileRequest,
};
use animus::project::error::ProjectError;

fn keys(ctrl: bool, shift: bool, s: bool, o: bool) -> FileKeys {
    FileKeys { egui_wants_keyboard: false, ctrl, shift, s_pressed: s, o_pressed: o }
}

#[test]
fn the_title_shows_the_folder_rather_than_the_whole_path() {
    assert_eq!(short("C:/shows/spring/kevad.animus"), "kevad.animus");
    assert_eq!(short("shows/spring/kevad.animus"), "kevad.animus");
    assert_eq!(short("kevad.animus"), "kevad.animus");
    assert_eq!(short("shows/kevad.animus/"), "kevad.animus");
    assert_eq!(short("shows/kevad.animus/."), "kevad.animus");
    assert_eq!(short("/"), "/");
}

#[test]
fn a_path_without_a_last_name_is_shown_whole() {
    assert_eq!(folder_label(None, "shows/.."), "shows/..");
    assert_eq!(folder_label(Some("kevad.animus".into()), "x/kevad.animus"), "kevad.animus");
    assert_eq!(short("shows/.."), "shows/..");
}

#[test]
fn ctrl_s_saves_and_shift_makes_it_save_as() {
    let none = FileRequest(None);
    assert_eq!(file_shortcut(keys(true, false, true, false), none), FileRequest(Some(FileAction::Save)));
    assert_eq!(file_shortcut(keys(true, true, true, false), none), FileRequest(Some(FileAction::SaveAs)));
    assert_eq!(file_shortcut(keys(true, false, false, true), none), FileRequest(Some(FileAction::Open)));
    // O after S in the same frame: Open is what stays asked for.
    assert_eq!(file_shortcut(keys(true, false, true, true), none), FileRequest(Some(FileAction::Open)));
}

#[test]
fn shortcuts_stand_down_without_ctrl_or_while_typing() {
    let pending = FileRequest(Some(FileAction::Save));
    assert_eq!(file_shortcut(keys(false, false, true, false), FileRequest(None)), FileRequest(None));
    assert_eq!(file_shortcut(keys(true, false, false, false), pending), pending);
    let mut typing = keys(true, false, false, true);
    typing.egui_wants_keyboard = true;
    assert_eq!(file_shortcut(typing, FileRequest(None)), FileRequest(None));
}

#[test]
fn the_file_menu_says_what_happened() {
    assert_eq!(window_title("Sample Show", "kevad.animus"), "Animus Live \u{2014} Sample Show (kevad.animus)");
    assert_eq!(saved_status("kevad.animus"), "Saved to kevad.animus");
    assert_eq!(opened_status("kevad.animus"), "Opened kevad.animus");
    assert_eq!(cancelled_status(FileAction::Save), "Save cancelled.");
    assert_eq!(cancelled_status(FileAction::SaveAs), "Save cancelled.");
    assert_eq!(cancelled_status(FileAction::Open), "Open cancelled.");
    let e = ProjectError::SchemaTooNew { found: 2, supported: 1 };
    assert_eq!(
        open_failed_status(&e),
        "Could not open: project schema version 2 is newer than the 1 this build supports"
    );
    let e = ProjectError::NonFiniteFloat { path: "$.x".into() };
    assert_eq!(save_failed_status(&e), "Could not save: non-finite float at $.x");
}

#[test]
fn save_as_suggests_the_current_folder_or_untitled() {
    assert_eq!(suggested_name(Some("kevad.animus".into())), "kevad.animus");
    assert_eq!(suggested_name(None), "untitled.animus");
}

#[test]
fn a_save_as_folder_always_ends_in_animus() {
    assert_eq!(project_folder("shows/kevad"), "shows/kevad.animus");
    assert_eq!(project_folder("shows/kevad.animus"), "shows/kevad.animus");
    assert_eq!(project_folder("shows/kevad.v2"), "shows/kevad.animus");
    assert_eq!(project_folder("shows/kevad/"), "shows/kevad.animus");
    assert_eq!(project_folder("shows/.."), "shows/..");
    assert_eq!(project_folder("/home/me/kevad"), "/home/me/kevad.animus");
}
