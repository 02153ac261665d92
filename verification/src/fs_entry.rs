//! The navigation model's picture of a directory entry, and the mapping
//! from an entry to the icon drawn beside it in the carousel.

use vstd::prelude::*;

use crate::text::str_eq;

verus! {

/// What kind of filesystem object an entry is. `Unreadable` stands for an
/// entry whose metadata could not be read.
#[derive(Clone, Copy, Debug, PartialEq, Eq, Structural)]
pub enum EntryKind {
    Directory,
    File,
    Other,
    Unreadable,
}

/// The icon drawn beside a carousel entry.
#[derive(Clone, Copy, Debug, PartialEq, Eq, Structural)]
pub enum IconKind {
    Txt,
    Video,
    Folder,
    Questionmark,
}

/// One directory entry as the navigation logic sees it: plain values read
/// once from the filesystem by the caller.
pub struct Entry {
    pub name: String,
    pub size: u64,
    pub kind: EntryKind,
    pub extension: Option<String>,
    pub mtime: i64,
}

/// The mathematical value of an [`Entry`].
pub struct EntryV {
    pub name: Seq<char>,
    pub size: u64,
    pub kind: EntryKind,
    pub extension: Option<Seq<char>>,
    pub mtime: i64,
}

impl View for Entry {
    type V = EntryV;

    open spec fn view(&self) -> EntryV {
        EntryV {
            name: self.name@,
            size: self.size,
            kind: self.kind,
            extension: match self.extension {
                Option::Some(e) => Option::Some(e@),
                Option::None => Option::None,
            },
            mtime: self.mtime,
        }
    }
}

impl DeepView for Entry {
    type V = EntryV;

    open spec fn deep_view(&self) -> EntryV {
        self.view()
    }
}

/// Extensions rendered with the text-file icon.
pub open spec fn is_text_ext(e: Seq<char>) -> bool {
    e == "txt"@ || e == "bashrc"@ || e == "rs"@ || e == "sh"@
}

/// Extensions rendered with the video icon.
pub open spec fn is_video_ext(e: Seq<char>) -> bool {
    e == "rgb"@ || e == "raw"@ || e == "rgb565"@ || e == "mp4"@
}

/// Extensions the playback engine accepts: raw 16-bit-pixel frame records.
pub open spec fn is_playable_ext(e: Seq<char>) -> bool {
    e == "rgb565"@ || e == "raw"@
}

/// The icon for an entry: directories get the folder icon, readable files
/// get an icon by extension class, everything else the question mark.
pub open spec fn spec_icon_for(kind: EntryKind, extension: Option<Seq<char>>) -> IconKind {
    match kind {
        EntryKind::Directory => IconKind::Folder,
        EntryKind::Unreadable => IconKind::Questionmark,
        _ => match extension {
            Option::Some(e) => {
                if is_text_ext(e) {
                    IconKind::Txt
                } else if is_video_ext(e) {
                    IconKind::Video
                } else {
                    IconKind::Questionmark
                }
            },
            Option::None => IconKind::Questionmark,
        },
    }
}

/// Picks the carousel icon for a directory entry.
pub fn icon_for_entry(e: &Entry) -> (k: IconKind)
    ensures
        k == spec_icon_for(e@.kind, e@.extension),
{
    match e.kind {
        EntryKind::Directory => IconKind::Folder,
        EntryKind::Unreadable => IconKind::Questionmark,
        _ => match &e.extension {
            Option::Some(ext) => {
                if str_eq(ext.as_str(), "txt") || str_eq(ext.as_str(), "bashrc") || str_eq(
                    ext.as_str(),
                    "rs",
                ) || str_eq(ext.as_str(), "sh") {
                    IconKind::Txt
                } else if str_eq(ext.as_str(), "rgb") || str_eq(ext.as_str(), "raw") || str_eq(
                    ext.as_str(),
                    "rgb565",
                ) || str_eq(ext.as_str(), "mp4") {
                    IconKind::Video
                } else {
                    IconKind::Questionmark
                }
            },
            Option::None => IconKind::Questionmark,
        },
    }
}

/// Decides whether a file extension names a playable raw-frame format.
pub fn is_playable_extension(ext: &str) -> (r: bool)
    ensures
        r == is_playable_ext(ext@),
{
    str_eq(ext, "rgb565") || str_eq(ext, "raw")
}

/// The details of the file a modal was opened about, carried from the
/// navigation selection into the confirmation dialog.
pub struct FileDetails {
    /// Path components of the file below the filesystem root.
    pub path: Vec<String>,
    pub size: u64,
    pub name: String,
    pub extension: String,
    pub is_dir: bool,
    pub last_modified: String,
}

/// The mathematical value of a [`FileDetails`].
pub struct FileDetailsV {
    pub path: Seq<Seq<char>>,
    pub size: u64,
    pub name: Seq<char>,
    pub extension: Seq<char>,
    pub is_dir: bool,
    pub last_modified: Seq<char>,
}

impl View for FileDetails {
    type V = FileDetailsV;

    open spec fn view(&self) -> FileDetailsV {
        FileDetailsV {
            path: self.path.deep_view(),
            size: self.size,
            name: self.name@,
            extension: self.extension@,
            is_dir: self.is_dir,
            last_modified: self.last_modified@,
        }
    }
}

impl DeepView for FileDetails {
    type V = FileDetailsV;

    open spec fn deep_view(&self) -> FileDetailsV {
        self.view()
    }
}

impl FileDetails {
    /// Copies the details; the copy has the same mathematical value.
    pub fn duplicate(&self) -> (r: FileDetails)
        ensures
            r@ == self@,
    {
        let path = self.path.clone();
        proof {
            assert(path.deep_view() =~= self.path.deep_view());
        }
        let r = FileDetails {
            path,
            size: self.size,
            name: self.name.clone(),
            extension: self.extension.clone(),
            is_dir: self.is_dir,
            last_modified: self.last_modified.clone(),
        };
        proof {
            assert(r@ =~= self@);
        }
        r
    }
}

} // verus!
