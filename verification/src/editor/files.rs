//! Save, Save As, and Open: deciding *where*, and saying what happened.
//!
//! A `.animus` project is a directory. Saving is already safe (temp file,
//! fsync, rename); this module decides where a save goes and keeps the rest
//! of the editor honest about the result.

use vstd::prelude::*;
use crate::editor::import::split_name;
use crate::project::assets::{file_name_of, file_name_reads_alike, path_file_name};
use crate::project::error::{describes, ProjectError};

verus! {

/// What the operator asked the file menu for.
#[derive(Debug, Clone, Copy, PartialEq, Eq, Structural)]
pub enum FileAction {
    /// Write to the current location, or ask for one if there isn't a real
    /// one yet.
    Save,
    /// Always ask.
    SaveAs,
    Open,
}

/// The file menu's pending request.
#[derive(Debug, Clone, Copy, PartialEq, Eq, Structural)]
pub struct FileRequest(pub Option<FileAction>);

impl Default for FileRequest {
    fn default() -> (r: Self)
        ensures
            r.0 is None,
    {
        FileRequest(None)
    }
}

/// Whether the document has ever been written somewhere the operator chose.
///
/// A project started from nothing has a placeholder path; Save on it has to
/// ask rather than silently drop a folder wherever the executable was
/// launched from.
#[derive(Debug, Clone, Copy, PartialEq, Eq, Structural)]
pub struct ProjectSaved(pub bool);

impl Default for ProjectSaved {
    fn default() -> (s: Self)
        ensures
            !s.0,
    {
        ProjectSaved(false)
    }
}

/// Where a file request goes next.
#[derive(Debug, Clone, Copy, PartialEq, Eq, Structural)]
pub enum FileRoute {
    /// Write the project where it already lives.
    WriteInPlace,
    /// Ask where to save it.
    AskWhereToSave,
    /// Ask which project to open.
    AskWhatToOpen,
}

/// Route a request: only a Save on a project that has a real home writes
/// without asking.
pub fn route(action: FileAction, saved: ProjectSaved) -> (r: FileRoute)
    ensures
        r == match action {
            FileAction::Save => if saved.0 {
                FileRoute::WriteInPlace
            } else {
                FileRoute::AskWhereToSave
            },
            FileAction::SaveAs => FileRoute::AskWhereToSave,
            FileAction::Open => FileRoute::AskWhatToOpen,
        },
{
    match action {
        FileAction::Save => if saved.0 {
            FileRoute::WriteInPlace
        } else {
            FileRoute::AskWhereToSave
        },
        FileAction::SaveAs => FileRoute::AskWhereToSave,
        FileAction::Open => FileRoute::AskWhatToOpen,
    }
}

/// The last thing that happened, for the title bar to say.
#[derive(Debug, Clone)]
pub struct FileStatus {
    pub message: Option<String>,
    pub is_error: bool,
}

impl Default for FileStatus {
    fn default() -> (s: Self)
        ensures
            s.message is None,
            !s.is_error,
    {
        FileStatus { message: None, is_error: false }
    }
}

impl FileStatus {
    /// Something worked.
    pub fn ok(&mut self, message: &str)
        ensures
            final(self).message matches Some(m) && m@ == message@,
            !final(self).is_error,
    {
        self.message = Some(String::from_str(message));
        self.is_error = false;
    }

    /// Something failed, and the title bar says so.
    pub fn failed(&mut self, message: &str)
        ensures
            final(self).message matches Some(m) && m@ == message@,
            final(self).is_error,
    {
        self.message = Some(String::from_str(message));
        self.is_error = true;
    }
}

/// The keys the file shortcuts read in one frame.
#[derive(Debug, Clone, Copy, PartialEq, Eq, Structural)]
pub struct FileKeys {
    /// A text field has the keyboard; shortcuts stand down.
    pub egui_wants_keyboard: bool,
    /// Either Ctrl is held.
    pub ctrl: bool,
    /// Either Shift is held.
    pub shift: bool,
    /// S went down this frame.
    pub s_pressed: bool,
    /// O went down this frame.
    pub o_pressed: bool,
}

/// What Ctrl+S, Ctrl+Shift+S and Ctrl+O make of the pending request.
///
/// Nothing happens while a text field has the keyboard or Ctrl is up. With
/// both S and O down in one frame, Open is what stays asked for.
pub open spec fn shortcut_request(keys: FileKeys, current: FileRequest) -> FileRequest {
    if keys.egui_wants_keyboard || !keys.ctrl {
        current
    } else if keys.o_pressed {
        FileRequest(Some(FileAction::Open))
    } else if keys.s_pressed {
        FileRequest(Some(if keys.shift { FileAction::SaveAs } else { FileAction::Save }))
    } else {
        current
    }
}

/// **What the file shortcuts ask for.** With Ctrl held and no text field
/// typing: Ctrl+O asks to open, Ctrl+S (without O) asks to save and
/// Ctrl+Shift+S to save as; without Ctrl, while typing, or with neither key,
/// the pending request stays as it was.
pub proof fn law_what_the_file_shortcuts_ask(keys: FileKeys, current: FileRequest)
    ensures
        ({
            let r = shortcut_request(keys, current);
            let live = keys.ctrl && !keys.egui_wants_keyboard;
            &&& (live && keys.o_pressed) ==> r == FileRequest(Some(FileAction::Open))
            &&& (live && keys.s_pressed && !keys.o_pressed && !keys.shift) ==> r == FileRequest(
                Some(FileAction::Save),
            )
            &&& (live && keys.s_pressed && !keys.o_pressed && keys.shift) ==> r == FileRequest(
                Some(FileAction::SaveAs),
            )
            &&& (!live || (!keys.s_pressed && !keys.o_pressed)) ==> r == current
        }),
{
}

/// Ctrl+S, Ctrl+Shift+S, Ctrl+O.
pub fn file_shortcut(keys: FileKeys, current: FileRequest) -> (r: FileRequest)
    ensures
        r == shortcut_request(keys, current),
{
    if keys.egui_wants_keyboard || !keys.ctrl {
        return current;
    }
    let mut request = current;
    if keys.s_pressed {
        request = FileRequest(
            Some(
                if keys.shift {
                    FileAction::SaveAs
                } else {
                    FileAction::Save
                },
            ),
        );
    }
    if keys.o_pressed {
        request = FileRequest(Some(FileAction::Open));
    }
    request
}

/// A folder's label from its file name, or the whole path when it has none.
pub fn folder_label(file_name: Option<String>, path: &str) -> (r: String)
    ensures
        r@ == match file_name {
            Some(n) => n@,
            None => path@,
        },
{
    match file_name {
        Some(n) => n,
        None => String::from_str(path),
    }
}

/// Just the folder name: a title bar is not the place for a full path.
///
/// The name is the platform's last path component; a path without one (such
/// as one ending in `..`) is shown whole.
pub fn short(path: &str) -> (r: String)
    ensures
        file_name_reads_alike(path@) ==> r@ == match file_name_of(path@) {
            Some(n) => n,
            None => path@,
        },
{
    folder_label(path_file_name(path), path)
}

/// Where a path's last component ends: trailing `/`s and `.` segments are
/// not part of it.
pub open spec fn name_end(p: Seq<char>) -> int
    decreases p.len(),
{
    if p.len() == 0 {
        0
    } else if p.last() == '/' {
        name_end(p.drop_last())
    } else if p.last() == '.' && (p.len() == 1 || p[p.len() - 2] == '/') {
        name_end(p.drop_last())
    } else {
        p.len() as int
    }
}

/// The extension of a path's file name.
pub open spec fn extension_of(p: Seq<char>) -> Option<Seq<char>> {
    match file_name_of(p) {
        Some(n) => split_name(n).1,
        None => None,
    }
}

/// `Path::extension`, as text: the extension of the path's file name. For a
/// path whose last component reads alike everywhere it is
/// [`extension_of`]; of other paths nothing is promised.
#[verifier::external_body]
fn path_extension(path: &str) -> (r: Option<String>)
    ensures
        file_name_reads_alike(path@) ==> (r is Some <==> extension_of(path@) is Some),
        file_name_reads_alike(path@) && r is Some ==> extension_of(path@) == Some(r->0@),
{
    std::path::Path::new(path).extension().map(|e| e.to_string_lossy().into_owned())
}

/// `PathBuf::set_extension("animus")`, as text: the path cut just after its
/// file name's stem, with `.animus` added; unchanged when it has no file
/// name. For a path whose last component reads alike everywhere the cut
/// falls at the end of that stem inside the last component; of other paths
/// nothing is promised.
#[verifier::external_body]
fn path_with_animus_extension(path: &str) -> (r: String)
    ensures
        file_name_reads_alike(path@) && file_name_of(path@) is None ==> r@ == path@,
        file_name_reads_alike(path@) && file_name_of(path@) is Some ==> r@ == path@.subrange(
            0,
            name_end(path@) - file_name_of(path@)->0.len() + split_name(file_name_of(path@)->0).0.len(),
        ) + ".animus"@,
{
    let mut p = std::path::PathBuf::from(path);
    p.set_extension("animus");
    p.to_string_lossy().into_owned()
}

/// The folder a Save As writes to: the picked path, with `.animus` put back
/// on when the operator typed a name without it (replacing another
/// extension), so the folder is recognisable as a project.
pub fn project_folder(path: &str) -> (r: String)
    ensures
        file_name_reads_alike(path@) ==> r@ == match file_name_of(path@) {
            None => path@,
            Some(n) => if split_name(n).1 == Some("animus"@) {
                path@
            } else {
                path@.subrange(0, name_end(path@) - n.len() + split_name(n).0.len()) + ".animus"@
            },
        },
{
    let is_project = match path_extension(path) {
        Some(e) => crate::text::text_eq(e.as_str(), "animus"),
        None => false,
    };
    if is_project {
        String::from_str(path)
    } else {
        path_with_animus_extension(path)
    }
}

/// The name a Save As dialog suggests: the project's current folder name, or
/// `untitled.animus` when the path has none.
pub fn suggested_name(file_name: Option<String>) -> (r: String)
    ensures
        r@ == match file_name {
            Some(n) => n@,
            None => "untitled.animus"@,
        },
{
    match file_name {
        Some(n) => n,
        None => String::from_str("untitled.animus"),
    }
}

/// The window title for a project named `name` stored in folder `folder`.
pub fn window_title(name: &str, folder: &str) -> (r: String)
    ensures
        r@ == "Animus Live \u{2014} "@ + name@ + " ("@ + folder@ + ")"@,
{
    String::from_str("Animus Live \u{2014} ").concat(name).concat(" (").concat(folder).concat(")")
}

/// The status after a save into `folder`.
pub fn saved_status(folder: &str) -> (r: String)
    ensures
        r@ == "Saved to "@ + folder@,
{
    String::from_str("Saved to ").concat(folder)
}

/// The status after opening the project in `folder`.
pub fn opened_status(folder: &str) -> (r: String)
    ensures
        r@ == "Opened "@ + folder@,
{
    String::from_str("Opened ").concat(folder)
}

/// The status after a save failed.
pub fn save_failed_status(e: &ProjectError) -> (r: String)
    ensures
        r@.len() >= "Could not save: "@.len(),
        r@.subrange(0, "Could not save: "@.len() as int) == "Could not save: "@,
        describes(*e, r@.subrange("Could not save: "@.len() as int, r@.len() as int)),
{
    let m = e.message();
    let r = String::from_str("Could not save: ").concat(m.as_str());
    assert(r@.subrange(0, "Could not save: "@.len() as int) =~= "Could not save: "@);
    assert(r@.subrange("Could not save: "@.len() as int, r@.len() as int) =~= m@);
    r
}

/// The status after an open failed.
pub fn open_failed_status(e: &ProjectError) -> (r: String)
    ensures
        r@.len() >= "Could not open: "@.len(),
        r@.subrange(0, "Could not open: "@.len() as int) == "Could not open: "@,
        describes(*e, r@.subrange("Could not open: "@.len() as int, r@.len() as int)),
{
    let m = e.message();
    let r = String::from_str("Could not open: ").concat(m.as_str());
    assert(r@.subrange(0, "Could not open: "@.len() as int) =~= "Could not open: "@);
    assert(r@.subrange("Could not open: "@.len() as int, r@.len() as int) =~= m@);
    r
}

/// What the status says when the operator closes the dialog without choosing.
pub fn cancelled_status(action: FileAction) -> (r: &'static str)
    ensures
        r@ == match action {
            FileAction::Open => "Open cancelled."@,
            _ => "Save cancelled."@,
        },
{
    match action {
        FileAction::Open => "Open cancelled.",
        _ => "Save cancelled.",
    }
}

} // verus!
