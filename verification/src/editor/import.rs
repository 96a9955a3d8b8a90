//! Dropping a file in: which importer runs, what the puppet is called, and
//! what to say afterwards.

use vstd::prelude::*;
use crate::project::assets::{file_name_of, file_name_reads_alike, path_file_name};
use crate::text::{ascii_lowercase, chars_of, text_of, to_ascii_lowercase};

verus! {

/// What a dropped file is, decided by its extension.
///
/// By extension and not by sniffing the bytes: a `.gltf` is JSON and a
/// `.glb` is a container, so sniffing would need two probes to answer what
/// the file name already answers.
#[derive(Debug, Clone, Copy, PartialEq, Eq, Structural)]
pub enum Dropped {
    Image,
    Model,
}

/// Where the last `.` of a file name is, if it has one.
pub open spec fn last_dot(name: Seq<char>) -> Option<int> {
    if exists|i: int| 0 <= i < name.len() && name[i] == '.' {
        Some(choose|i: int| 0 <= i < name.len() && name[i] == '.' && forall|k: int| i < k < name.len() ==> name[k] != '.')
    } else {
        None
    }
}

/// A file name's stem and extension, as `Path::file_stem` and
/// `Path::extension` split it: at the last `.`, except that a name whose
/// only `.` leads it (`.png`) and the name `..` have no extension.
pub open spec fn split_name(name: Seq<char>) -> (Seq<char>, Option<Seq<char>>) {
    if name == ".."@ {
        (name, None)
    } else {
        match last_dot(name) {
            None => (name, None),
            Some(i) => if i == 0 {
                (name, None)
            } else {
                (name.subrange(0, i), Some(name.subrange(i + 1, name.len() as int)))
            },
        }
    }
}

/// What a lowercase extension says the file is.
pub open spec fn kind_of_extension(ext: Seq<char>) -> Option<Dropped> {
    if ext == "png"@ || ext == "jpg"@ || ext == "jpeg"@ || ext == "webp"@ || ext == "tga"@ || ext
        == "bmp"@ {
        Some(Dropped::Image)
    } else if ext == "gltf"@ || ext == "glb"@ {
        Some(Dropped::Model)
    } else {
        None
    }
}

/// The last `.` of a file name: its index, or `None`.
fn find_last_dot(name: &Vec<char>) -> (r: Option<usize>)
    ensures
        r is None ==> last_dot(name@) is None,
        r matches Some(i) ==> i < name.len() && last_dot(name@) == Some(i as int),
{
    let mut i = name.len();
    while i > 0
        invariant
            i <= name.len(),
            forall|k: int| i <= k < name.len() ==> name@[k] != '.',
        decreases i,
    {
        if name[i - 1] == '.' {
            let ghost j = (i - 1) as int;
            assert(exists|m: int| 0 <= m < name@.len() && name@[m] == '.');
            let ghost c = choose|m: int| 0 <= m < name@.len() && name@[m] == '.' && forall|k: int| m < k < name@.len() ==> name@[k] != '.';
            assert(0 <= j < name@.len() && name@[j] == '.' && forall|k: int| j < k < name@.len() ==> name@[k] != '.');
            assert(c == j) by {
                if c < j {
                } else if c > j {
                }
            }
            return Some(i - 1);
        }
        i = i - 1;
    }
    None
}

/// The part of a vector between two indexes.
fn slice_chars(v: &Vec<char>, from: usize, to: usize) -> (r: Vec<char>)
    requires
        from <= to <= v.len(),
    ensures
        r@ == v@.subrange(from as int, to as int),
{
    let mut r: Vec<char> = Vec::new();
    let mut i = from;
    while i < to
        invariant
            from <= i <= to <= v.len(),
            r@ == v@.subrange(from as int, i as int),
        decreases to - i,
    {
        r.push(v[i]);
        i = i + 1;
    }
    r
}

/// Whether a name is exactly `..`.
fn is_parent_name(name: &Vec<char>) -> (b: bool)
    ensures
        b == (name@ == ".."@),
{
    proof {
        reveal_strlit("..");
    }
    if name.len() == 2 && name[0] == '.' && name[1] == '.' {
        assert(name@ =~= ".."@);
        true
    } else {
        false
    }
}

/// A file name's stem and extension; see [`split_name`].
pub fn split_file_name(name: &str) -> (r: (String, Option<String>))
    ensures
        r.0@ == split_name(name@).0,
        r.1 is None <==> split_name(name@).1 is None,
        r.1 matches Some(e) ==> split_name(name@).1 == Some(e@),
{
    let chars = chars_of(name);
    if is_parent_name(&chars) {
        return (String::from_str(name), None);
    }
    match find_last_dot(&chars) {
        None => (String::from_str(name), None),
        Some(i) => if i == 0 {
            (String::from_str(name), None)
        } else {
            let stem = slice_chars(&chars, 0, i);
            let ext = slice_chars(&chars, i + 1, chars.len());
            (text_of(&stem), Some(text_of(&ext)))
        },
    }
}

/// What a file name's extension, in any letter case, says the file is.
pub open spec fn kind_of_file_name(name: Seq<char>) -> Option<Dropped> {
    match split_name(name).1 {
        Some(ext) => kind_of_extension(ascii_lowercase(ext)),
        None => None,
    }
}

/// Whether a lowercase extension is one of the image formats the importer
/// decodes.
pub open spec fn is_image_extension(e: Seq<char>) -> bool {
    e == "png"@ || e == "jpg"@ || e == "jpeg"@ || e == "webp"@ || e == "tga"@ || e == "bmp"@
}

/// **The extension decides the importer, in any letter case.** A file name
/// whose extension, lowercased, is `png`, `jpg`, `jpeg`, `webp`, `tga` or
/// `bmp` goes to the image importer; `gltf` or `glb` to the model importer;
/// any other extension, or none, to neither.
pub proof fn law_the_extension_decides_the_importer(name: Seq<char>)
    ensures
        (split_name(name).1 matches Some(e) && is_image_extension(ascii_lowercase(e))) ==> kind_of_file_name(name)
            == Some(Dropped::Image),
        (split_name(name).1 matches Some(e) && (ascii_lowercase(e) == "gltf"@ || ascii_lowercase(e)
            == "glb"@)) ==> kind_of_file_name(name) == Some(Dropped::Model),
        (split_name(name).1 matches Some(e) && !is_image_extension(ascii_lowercase(e))
            && ascii_lowercase(e) != "gltf"@ && ascii_lowercase(e) != "glb"@) ==> kind_of_file_name(name) is None,
        split_name(name).1 is None ==> kind_of_file_name(name) is None,
{
    reveal_strlit("png");
    reveal_strlit("jpg");
    reveal_strlit("jpeg");
    reveal_strlit("webp");
    reveal_strlit("tga");
    reveal_strlit("bmp");
    reveal_strlit("gltf");
    reveal_strlit("glb");
    if let Some(e) = split_name(name).1 {
        let l = ascii_lowercase(e);
        if l == "gltf"@ || l == "glb"@ {
            assert(l[0] == 'g');
            assert("png"@[0] == 'p' && "jpg"@[0] == 'j' && "jpeg"@[0] == 'j' && "webp"@[0] == 'w'
                && "tga"@[0] == 't' && "bmp"@[0] == 'b');
            assert(!is_image_extension(l));
        }
    }
}

/// Which importer a file of this name goes to, by its extension, in any
/// letter case.
pub fn kind_of_name(file_name: &str) -> (r: Option<Dropped>)
    ensures
        r == kind_of_file_name(file_name@),
{
    let ext = match split_file_name(file_name).1 {
        Some(e) => e,
        None => return None,
    };
    let lower = to_ascii_lowercase(ext.as_str());
    let l = lower.as_str();
    if crate::text::text_eq(l, "png") || crate::text::text_eq(l, "jpg") || crate::text::text_eq(
        l,
        "jpeg",
    ) || crate::text::text_eq(l, "webp") || crate::text::text_eq(l, "tga")
        || crate::text::text_eq(l, "bmp") {
        Some(Dropped::Image)
    } else if crate::text::text_eq(l, "gltf") || crate::text::text_eq(l, "glb") {
        Some(Dropped::Model)
    } else {
        None
    }
}

/// Which importer a dropped file goes to: by the extension of the path's
/// file name, and none for a path without a file name (such as one ending
/// in `..`).
pub fn kind_of(path: &str) -> (r: Option<Dropped>)
    ensures
        file_name_reads_alike(path@) ==> r == match file_name_of(path@) {
            Some(n) => kind_of_file_name(n),
            None => None,
        },
{
    match path_file_name(path) {
        Some(name) => kind_of_name(name.as_str()),
        None => None,
    }
}

/// The puppet name a dropped file's name gives: the stem of its path's file
/// name (`shows/dancer.png` → `dancer`), or the whole name when that stem is
/// empty or there is no file name. The extension goes, but never the whole
/// name.
pub open spec fn display_name_of(name: Seq<char>) -> Seq<char> {
    match file_name_of(name) {
        Some(n) => if split_name(n).0.len() > 0 {
            split_name(n).0
        } else {
            name
        },
        None => name,
    }
}

/// What a file name names a puppet: see [`display_name_of`].
pub fn display_name(file_name: &str) -> (r: String)
    ensures
        file_name_reads_alike(file_name@) ==> r@ == display_name_of(file_name@),
{
    match path_file_name(file_name) {
        Some(n) => {
            let (stem, _) = split_file_name(n.as_str());
            if stem.unicode_len() > 0 {
                stem
            } else {
                String::from_str(file_name)
            }
        },
        None => String::from_str(file_name),
    }
}

/// The last thing an import said, shown in the Assets panel.
///
/// One slot, not a log: the operator cares about the file they just dropped.
#[derive(Debug, Clone)]
pub struct ImportStatus {
    pub message: Option<String>,
    pub is_error: bool,
}

impl Default for ImportStatus {
    fn default() -> (s: Self)
        ensures
            s.message is None,
            !s.is_error,
    {
        ImportStatus { message: None, is_error: false }
    }
}

impl ImportStatus {
    pub fn ok(&mut self, msg: &str)
        ensures
            final(self).message matches Some(m) && m@ == msg@,
            !final(self).is_error,
    {
        self.message = Some(String::from_str(msg));
        self.is_error = false;
    }

    pub fn error(&mut self, msg: &str)
        ensures
            final(self).message matches Some(m) && m@ == msg@,
            final(self).is_error,
    {
        self.message = Some(String::from_str(msg));
        self.is_error = true;
    }
}

} // verus!
